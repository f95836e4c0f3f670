//! Dataset creation properties: storage layout, allocation and fill
//! settings, external files and attribute storage, as read from a dataset
//! creation property list.

use vstd::prelude::*;
use crate::error::Error;
use crate::filter::{spec_read_entry, Filter};
use crate::filters::PipelineFilter;
use crate::file_access::{read_agrees, read_or};
use crate::text::string_of;

verus! {

/// Attribute storage phase change thresholds.
///
/// Attributes are kept in compact storage (in the object header) until their
/// number exceeds `max_compact`; they then move to dense storage, and come
/// back to compact storage when their number falls below `min_dense`. With
/// `max_compact` 0, dense storage is always used.
#[derive(Clone, Copy, Debug, PartialEq, Eq)]
pub struct AttrPhaseChange {
    /// Maximum number of attributes kept in compact storage (default: 8).
    pub max_compact: u32,
    /// Minimum number of attributes kept in dense storage (default: 6).
    pub min_dense: u32,
}

impl Default for AttrPhaseChange {
    fn default() -> (r: Self)
        ensures
            r == (AttrPhaseChange { max_compact: 8, min_dense: 6 }),
    {
        AttrPhaseChange { max_compact: 8, min_dense: 6 }
    }
}

/// Attribute creation order is tracked.
pub const CRT_ORDER_TRACKED: u32 = 1;
/// Attribute creation order is indexed.
pub const CRT_ORDER_INDEXED: u32 = 2;
/// Both creation order flags.
pub const CRT_ORDER_ALL: u32 = 3;

/// Whether the creation order of attributes is tracked and indexed, as a
/// set of flag bits.
#[derive(Clone, Copy, Debug, PartialEq, Eq)]
pub struct AttrCreationOrder {
    bits: u32,
}

/// The creation order setting with the given flag bits.
pub closed spec fn crt_order_of_bits(bits: u32) -> AttrCreationOrder {
    AttrCreationOrder { bits }
}

impl AttrCreationOrder {
    /// The flag bits of the setting.
    pub closed spec fn spec_bits(self) -> u32 {
        self.bits
    }

    /// The flag bits.
    pub fn bits(self) -> (r: u32)
        ensures
            r == self.spec_bits(),
    {
        self.bits
    }

    /// The setting made of the known flags among `bits`; other bits are
    /// dropped.
    pub fn from_bits_truncate(bits: u32) -> (r: Self)
        ensures
            r == crt_order_of_bits(bits & CRT_ORDER_ALL),
    {
        AttrCreationOrder { bits: bits & CRT_ORDER_ALL }
    }

    /// Whether every flag of `other` is set.
    pub fn contains(self, other: Self) -> (r: bool)
        ensures
            r == (self.spec_bits() & other.spec_bits() == other.spec_bits()),
    {
        self.bits & other.bits == other.bits
    }
}

/// The setting made of some flag bits has those bits.
pub proof fn crt_order_bits_of(bits: u32)
    ensures
        crt_order_of_bits(bits).spec_bits() == bits,
{
}

impl Default for AttrCreationOrder {
    /// Neither tracked nor indexed.
    fn default() -> (r: Self)
        ensures
            r == crt_order_of_bits(0),
    {
        AttrCreationOrder { bits: 0 }
    }
}

/// Partial edge chunks are not filtered.
pub const CHUNK_DONT_FILTER_PARTIAL_CHUNKS: u32 = 2;

/// Options of chunked storage, as a set of flag bits.
#[derive(Clone, Copy, Debug, PartialEq, Eq)]
pub struct ChunkOpts {
    bits: u32,
}

/// The chunk options with the given flag bits.
pub closed spec fn chunk_opts_of_bits(bits: u32) -> ChunkOpts {
    ChunkOpts { bits }
}

impl ChunkOpts {
    /// The flag bits of the options.
    pub closed spec fn spec_bits(self) -> u32 {
        self.bits
    }

    /// The flag bits.
    pub fn bits(self) -> (r: u32)
        ensures
            r == self.spec_bits(),
    {
        self.bits
    }

    /// The options made of the known flags among `bits`; other bits are
    /// dropped.
    pub fn from_bits_truncate(bits: u32) -> (r: Self)
        ensures
            r == chunk_opts_of_bits(bits & CHUNK_DONT_FILTER_PARTIAL_CHUNKS),
    {
        ChunkOpts { bits: bits & CHUNK_DONT_FILTER_PARTIAL_CHUNKS }
    }

    /// Whether every flag of `other` is set.
    pub fn contains(self, other: Self) -> (r: bool)
        ensures
            r == (self.spec_bits() & other.spec_bits() == other.spec_bits()),
    {
        self.bits & other.bits == other.bits
    }
}

/// The options made of some flag bits have those bits.
pub proof fn chunk_opts_bits_of(bits: u32)
    ensures
        chunk_opts_of_bits(bits).spec_bits() == bits,
{
}

impl Default for ChunkOpts {
    /// Partial edge chunks are not filtered.
    fn default() -> (r: Self)
        ensures
            r == chunk_opts_of_bits(CHUNK_DONT_FILTER_PARTIAL_CHUNKS),
    {
        ChunkOpts { bits: CHUNK_DONT_FILTER_PARTIAL_CHUNKS }
    }
}

/// Storage layout of a dataset.
#[derive(Clone, Copy, Debug, PartialEq, Eq)]
pub enum Layout {
    Compact,
    Contiguous,
    Chunked,
    Virtual,
}

impl Default for Layout {
    fn default() -> (r: Self)
        ensures
            r == Layout::Contiguous,
    {
        Layout::Contiguous
    }
}

/// Layout code of compact storage.
pub const LAYOUT_COMPACT: i32 = 0;
/// Layout code of contiguous storage.
pub const LAYOUT_CONTIGUOUS: i32 = 1;
/// Layout code of chunked storage.
pub const LAYOUT_CHUNKED: i32 = 2;
/// Layout code of virtual storage.
pub const LAYOUT_VIRTUAL: i32 = 3;

/// The layout a layout code stands for; an unknown code stands for
/// contiguous storage.
pub open spec fn spec_layout_of(code: i32) -> Layout {
    if code == LAYOUT_COMPACT {
        Layout::Compact
    } else if code == LAYOUT_CHUNKED {
        Layout::Chunked
    } else if code == LAYOUT_VIRTUAL {
        Layout::Virtual
    } else {
        Layout::Contiguous
    }
}

/// The code of a layout.
pub open spec fn spec_layout_code(l: Layout) -> i32 {
    match l {
        Layout::Compact => LAYOUT_COMPACT,
        Layout::Contiguous => LAYOUT_CONTIGUOUS,
        Layout::Chunked => LAYOUT_CHUNKED,
        Layout::Virtual => LAYOUT_VIRTUAL,
    }
}

impl Layout {
    /// The layout a layout code stands for.
    pub fn from_raw(code: i32) -> (r: Self)
        ensures
            r == spec_layout_of(code),
    {
        if code == LAYOUT_COMPACT {
            Layout::Compact
        } else if code == LAYOUT_CHUNKED {
            Layout::Chunked
        } else if code == LAYOUT_VIRTUAL {
            Layout::Virtual
        } else {
            Layout::Contiguous
        }
    }

    /// The code of the layout.
    pub fn to_raw(self) -> (r: i32)
        ensures
            r == spec_layout_code(self),
    {
        match self {
            Layout::Compact => LAYOUT_COMPACT,
            Layout::Contiguous => LAYOUT_CONTIGUOUS,
            Layout::Chunked => LAYOUT_CHUNKED,
            Layout::Virtual => LAYOUT_VIRTUAL,
        }
    }
}

/// The library's codes of the storage settings: layouts compact 0,
/// contiguous 1, chunked 2, virtual 3; allocation times default 0, early 1,
/// late 2, incremental 3; fill times on allocation 0, never 1, if set 2; fill
/// values undefined 0, default 1, user-defined 2. Reading a code gives the
/// setting with that code, and a code that names none reads as contiguous
/// storage, late allocation, never filling and an undefined fill value.
pub proof fn storage_codes_law(code: i32)
    ensures
        spec_layout_code(Layout::Compact) == 0,
        spec_layout_code(Layout::Contiguous) == 1,
        spec_layout_code(Layout::Chunked) == 2,
        spec_layout_code(Layout::Virtual) == 3,
        0 <= code <= 3 ==> spec_layout_code(spec_layout_of(code)) == code,
        !(0 <= code <= 3) ==> spec_layout_of(code) == Layout::Contiguous,
        spec_alloc_time_code(None) == 0,
        spec_alloc_time_code(Some(AllocTime::Early)) == 1,
        spec_alloc_time_code(Some(AllocTime::Late)) == 2,
        spec_alloc_time_code(Some(AllocTime::Incr)) == 3,
        1 <= code <= 3 ==> spec_alloc_time_code(Some(spec_alloc_time_of(code))) == code,
        !(1 <= code <= 3) ==> spec_alloc_time_of(code) == AllocTime::Late,
        spec_fill_time_code(FillTime::Alloc) == 0,
        spec_fill_time_code(FillTime::Never) == 1,
        spec_fill_time_code(FillTime::IfSet) == 2,
        0 <= code <= 2 ==> spec_fill_time_code(spec_fill_time_of(code)) == code,
        !(0 <= code <= 2) ==> spec_fill_time_of(code) == FillTime::Never,
        spec_fill_value_code(FillValue::Undefined) == 0,
        spec_fill_value_code(FillValue::Default) == 1,
        spec_fill_value_code(FillValue::UserDefined) == 2,
        0 <= code <= 2 ==> spec_fill_value_code(spec_fill_value_of(code)) == code,
        !(0 <= code <= 2) ==> spec_fill_value_of(code) == FillValue::Undefined,
{
}

/// A layout reads back as itself from its code.
pub proof fn layout_roundtrip(l: Layout)
    ensures
        spec_layout_of(spec_layout_code(l)) == l,
{
}

/// When storage space is allocated.
#[derive(Clone, Copy, Debug, PartialEq, Eq)]
pub enum AllocTime {
    Early,
    Incr,
    Late,
}

/// Allocation time code that leaves the choice to the library.
pub const ALLOC_TIME_DEFAULT: i32 = 0;
/// Allocation time code of early allocation.
pub const ALLOC_TIME_EARLY: i32 = 1;
/// Allocation time code of late allocation.
pub const ALLOC_TIME_LATE: i32 = 2;
/// Allocation time code of incremental allocation.
pub const ALLOC_TIME_INCR: i32 = 3;

/// The allocation time a code stands for; any other code stands for late
/// allocation.
pub open spec fn spec_alloc_time_of(code: i32) -> AllocTime {
    if code == ALLOC_TIME_EARLY {
        AllocTime::Early
    } else if code == ALLOC_TIME_INCR {
        AllocTime::Incr
    } else {
        AllocTime::Late
    }
}

/// The code of an allocation time; no allocation time is the library's
/// default.
pub open spec fn spec_alloc_time_code(a: Option<AllocTime>) -> i32 {
    match a {
        Some(AllocTime::Early) => ALLOC_TIME_EARLY,
        Some(AllocTime::Incr) => ALLOC_TIME_INCR,
        Some(AllocTime::Late) => ALLOC_TIME_LATE,
        None => ALLOC_TIME_DEFAULT,
    }
}

impl AllocTime {
    /// The allocation time a code stands for.
    pub fn from_raw(code: i32) -> (r: Self)
        ensures
            r == spec_alloc_time_of(code),
    {
        if code == ALLOC_TIME_EARLY {
            AllocTime::Early
        } else if code == ALLOC_TIME_INCR {
            AllocTime::Incr
        } else {
            AllocTime::Late
        }
    }

    /// The code of an allocation time, or of the library's default.
    pub fn to_raw(a: Option<AllocTime>) -> (r: i32)
        ensures
            r == spec_alloc_time_code(a),
    {
        match a {
            Some(AllocTime::Early) => ALLOC_TIME_EARLY,
            Some(AllocTime::Incr) => ALLOC_TIME_INCR,
            Some(AllocTime::Late) => ALLOC_TIME_LATE,
            None => ALLOC_TIME_DEFAULT,
        }
    }
}

/// An allocation time reads back as itself from its code.
pub proof fn alloc_time_roundtrip(a: AllocTime)
    ensures
        spec_alloc_time_of(spec_alloc_time_code(Some(a))) == a,
{
}

/// When fill values are written.
#[derive(Clone, Copy, Debug, PartialEq, Eq)]
pub enum FillTime {
    IfSet,
    Alloc,
    Never,
}

impl Default for FillTime {
    fn default() -> (r: Self)
        ensures
            r == FillTime::IfSet,
    {
        FillTime::IfSet
    }
}

/// Fill time code: on allocation.
pub const FILL_TIME_ALLOC: i32 = 0;
/// Fill time code: never.
pub const FILL_TIME_NEVER: i32 = 1;
/// Fill time code: on allocation, if a fill value was set.
pub const FILL_TIME_IFSET: i32 = 2;

/// The fill time a code stands for; any other code stands for never.
pub open spec fn spec_fill_time_of(code: i32) -> FillTime {
    if code == FILL_TIME_IFSET {
        FillTime::IfSet
    } else if code == FILL_TIME_ALLOC {
        FillTime::Alloc
    } else {
        FillTime::Never
    }
}

/// The code of a fill time.
pub open spec fn spec_fill_time_code(f: FillTime) -> i32 {
    match f {
        FillTime::IfSet => FILL_TIME_IFSET,
        FillTime::Alloc => FILL_TIME_ALLOC,
        FillTime::Never => FILL_TIME_NEVER,
    }
}

impl FillTime {
    /// The fill time a code stands for.
    pub fn from_raw(code: i32) -> (r: Self)
        ensures
            r == spec_fill_time_of(code),
    {
        if code == FILL_TIME_IFSET {
            FillTime::IfSet
        } else if code == FILL_TIME_ALLOC {
            FillTime::Alloc
        } else {
            FillTime::Never
        }
    }

    /// The code of the fill time.
    pub fn to_raw(self) -> (r: i32)
        ensures
            r == spec_fill_time_code(self),
    {
        match self {
            FillTime::IfSet => FILL_TIME_IFSET,
            FillTime::Alloc => FILL_TIME_ALLOC,
            FillTime::Never => FILL_TIME_NEVER,
        }
    }
}

/// A fill time reads back as itself from its code.
pub proof fn fill_time_roundtrip(f: FillTime)
    ensures
        spec_fill_time_of(spec_fill_time_code(f)) == f,
{
}

/// Whether a fill value is defined, and by whom.
#[derive(Clone, Copy, Debug, PartialEq, Eq)]
pub enum FillValue {
    Undefined,
    Default,
    UserDefined,
}

impl Default for FillValue {
    fn default() -> (r: Self)
        ensures
            r == FillValue::Default,
    {
        FillValue::Default
    }
}

/// Fill value status code: undefined.
pub const FILL_VALUE_UNDEFINED: i32 = 0;
/// Fill value status code: the library's default.
pub const FILL_VALUE_DEFAULT: i32 = 1;
/// Fill value status code: set by the user.
pub const FILL_VALUE_USER_DEFINED: i32 = 2;

/// The fill value status a code stands for; any other code stands for an
/// undefined fill value.
pub open spec fn spec_fill_value_of(code: i32) -> FillValue {
    if code == FILL_VALUE_DEFAULT {
        FillValue::Default
    } else if code == FILL_VALUE_USER_DEFINED {
        FillValue::UserDefined
    } else {
        FillValue::Undefined
    }
}

/// The code of a fill value status.
pub open spec fn spec_fill_value_code(f: FillValue) -> i32 {
    match f {
        FillValue::Undefined => FILL_VALUE_UNDEFINED,
        FillValue::Default => FILL_VALUE_DEFAULT,
        FillValue::UserDefined => FILL_VALUE_USER_DEFINED,
    }
}

impl FillValue {
    /// The fill value status a code stands for.
    pub fn from_raw(code: i32) -> (r: Self)
        ensures
            r == spec_fill_value_of(code),
    {
        if code == FILL_VALUE_DEFAULT {
            FillValue::Default
        } else if code == FILL_VALUE_USER_DEFINED {
            FillValue::UserDefined
        } else {
            FillValue::Undefined
        }
    }

    /// The code of the fill value status.
    pub fn to_raw(self) -> (r: i32)
        ensures
            r == spec_fill_value_code(self),
    {
        match self {
            FillValue::Undefined => FILL_VALUE_UNDEFINED,
            FillValue::Default => FILL_VALUE_DEFAULT,
            FillValue::UserDefined => FILL_VALUE_USER_DEFINED,
        }
    }
}

/// A fill value status reads back as itself from its code.
pub proof fn fill_value_roundtrip(f: FillValue)
    ensures
        spec_fill_value_of(spec_fill_value_code(f)) == f,
{
}

/// An external file that holds raw data of a dataset: its name, the offset
/// of the data in it and the size of the data (0 when unlimited).
#[derive(Clone, Debug, PartialEq, Eq)]
pub struct ExternalFile {
    pub name: String,
    pub offset: usize,
    pub size: usize,
}

/// Size of an external file that means "unlimited".
pub const EXTERNAL_UNLIMITED: u64 = 0xffff_ffff_ffff_ffff;

/// An external file entry, as the library gives it (name, offset, size),
/// agrees with an [`ExternalFile`].
pub open spec fn external_matches(e: ExternalFile, raw: (String, i64, u64)) -> bool {
    &&& e.name@ == raw.0@
    &&& e.offset == raw.1 as usize
    &&& e.size == (if raw.2 == EXTERNAL_UNLIMITED { 0 } else { raw.2 as usize })
}

/// What reading the properties of a dataset creation property list gave:
/// each read's result, as the library returned it. The chunk shape and
/// chunk options are only read from chunked property lists.
pub struct DatasetCreateReads {
    /// The entries of the filter pipeline.
    pub filters: Result<Vec<PipelineFilter>, Error>,
    pub alloc_time: Result<i32, Error>,
    pub fill_time: Result<i32, Error>,
    pub fill_value_defined: Result<i32, Error>,
    pub layout: Result<i32, Error>,
    pub chunk: Result<Vec<u64>, Error>,
    pub chunk_opts: Result<u32, Error>,
    /// Name, offset and size of each external file.
    pub external: Result<Vec<(String, i64, u64)>, Error>,
    pub obj_track_times: Result<u8, Error>,
    pub attr_phase_change: Result<(u32, u32), Error>,
    pub attr_creation_order: Result<u32, Error>,
}

/// Dataset creation property list, as read from the library.
pub struct DatasetCreate {
    reads: DatasetCreateReads,
}

/// The chunk shape of a property list with the given layout read and chunk
/// shape read: none unless the layout is chunked.
pub open spec fn spec_chunk_of(layout: Result<i32, Error>, chunk: Result<Vec<u64>, Error>) -> Result<Option<Seq<usize>>, crate::error::ErrorView> {
    match layout {
        Err(e) => Err(e@),
        Ok(code) => if spec_layout_of(code) == Layout::Chunked {
            match chunk {
                Ok(v) => Ok(Some(Seq::new(v@.len(), |i: int| v@[i] as usize))),
                Err(e) => Err(e@),
            }
        } else {
            Ok(None)
        },
    }
}

fn dup_error(e: &Error) -> (r: Error)
    ensures
        r@ == e@,
{
    e.duplicate()
}

impl DatasetCreate {
    /// The property list whose properties read as `reads`.
    pub fn new(reads: DatasetCreateReads) -> (r: Self)
        ensures
            r.reads() == reads,
    {
        DatasetCreate { reads }
    }

    /// What reading the properties gave.
    pub closed spec fn reads(&self) -> DatasetCreateReads {
        self.reads
    }

    /// The filters of the pipeline.
    pub fn get_filters(&self) -> (r: Result<Vec<Filter>, Error>)
        ensures
            match (r, self.reads().filters) {
                (Ok(a), Ok(b)) => a@.len() == b@.len() && forall|i: int|
                    0 <= i < b@.len() ==> (#[trigger] a@[i])@ == spec_read_entry(b@[i]@),
                (Err(e), Err(g)) => e@ == g@,
                _ => false,
            },
    {
        match &self.reads.filters {
            Ok(v) => Ok(Filter::extract_pipeline(v.as_slice())),
            Err(e) => Err(dup_error(e)),
        }
    }

    /// The filters of the pipeline; none when they cannot be read.
    pub fn filters(&self) -> (r: Vec<Filter>)
        ensures
            match self.reads().filters {
                Ok(b) => r@.len() == b@.len() && forall|i: int|
                    0 <= i < b@.len() ==> (#[trigger] r@[i])@ == spec_read_entry(b@[i]@),
                Err(_) => r@.len() == 0,
            },
    {
        match self.get_filters() {
            Ok(v) => v,
            Err(_) => Vec::new(),
        }
    }

    pub fn get_alloc_time(&self) -> (r: Result<AllocTime, Error>)
        ensures
            read_agrees(r, self.reads().alloc_time, |c: i32| spec_alloc_time_of(c)),
    {
        match &self.reads.alloc_time {
            Ok(c) => Ok(AllocTime::from_raw(*c)),
            Err(e) => Err(dup_error(e)),
        }
    }

    /// When storage is allocated; late when it cannot be read.
    pub fn alloc_time(&self) -> (r: AllocTime)
        ensures
            r == read_or(self.reads().alloc_time, |c: i32| spec_alloc_time_of(c), AllocTime::Late),
    {
        match self.get_alloc_time() {
            Ok(v) => v,
            Err(_) => AllocTime::Late,
        }
    }

    pub fn get_fill_time(&self) -> (r: Result<FillTime, Error>)
        ensures
            read_agrees(r, self.reads().fill_time, |c: i32| spec_fill_time_of(c)),
    {
        match &self.reads.fill_time {
            Ok(c) => Ok(FillTime::from_raw(*c)),
            Err(e) => Err(dup_error(e)),
        }
    }

    /// When fill values are written; the default time when it cannot be
    /// read.
    pub fn fill_time(&self) -> (r: FillTime)
        ensures
            r == read_or(self.reads().fill_time, |c: i32| spec_fill_time_of(c), FillTime::IfSet),
    {
        match self.get_fill_time() {
            Ok(v) => v,
            Err(_) => FillTime::default(),
        }
    }

    pub fn get_fill_value_defined(&self) -> (r: Result<FillValue, Error>)
        ensures
            read_agrees(r, self.reads().fill_value_defined, |c: i32| spec_fill_value_of(c)),
    {
        match &self.reads.fill_value_defined {
            Ok(c) => Ok(FillValue::from_raw(*c)),
            Err(e) => Err(dup_error(e)),
        }
    }

    /// Whether a fill value is defined; undefined when it cannot be read.
    pub fn fill_value_defined(&self) -> (r: FillValue)
        ensures
            r == read_or(self.reads().fill_value_defined, |c: i32| spec_fill_value_of(c), FillValue::Undefined),
    {
        match self.get_fill_value_defined() {
            Ok(v) => v,
            Err(_) => FillValue::Undefined,
        }
    }

    pub fn get_layout(&self) -> (r: Result<Layout, Error>)
        ensures
            read_agrees(r, self.reads().layout, |c: i32| spec_layout_of(c)),
    {
        match &self.reads.layout {
            Ok(c) => Ok(Layout::from_raw(*c)),
            Err(e) => Err(dup_error(e)),
        }
    }

    /// The storage layout; contiguous when it cannot be read.
    pub fn layout(&self) -> (r: Layout)
        ensures
            r == read_or(self.reads().layout, |c: i32| spec_layout_of(c), Layout::Contiguous),
    {
        match self.get_layout() {
            Ok(v) => v,
            Err(_) => Layout::default(),
        }
    }

    pub fn get_chunk(&self) -> (r: Result<Option<Vec<usize>>, Error>)
        ensures
            match (r, spec_chunk_of(self.reads().layout, self.reads().chunk)) {
                (Ok(Some(a)), Ok(Some(b))) => a@ == b,
                (Ok(None), Ok(None)) => true,
                (Err(e), Err(g)) => e@ == g,
                _ => false,
            },
    {
        match self.get_layout() {
            Err(e) => Err(e),
            Ok(Layout::Chunked) => match &self.reads.chunk {
                Ok(v) => {
                    let mut dims: Vec<usize> = Vec::new();
                    let mut i: usize = 0;
                    while i < v.len()
                        invariant
                            i <= v@.len(),
                            dims@ =~= Seq::new(i as nat, |k: int| v@[k] as usize),
                        decreases v@.len() - i,
                    {
                        dims.push(v[i] as usize);
                        i = i + 1;
                    }
                    Ok(Some(dims))
                },
                Err(e) => Err(dup_error(e)),
            },
            Ok(_) => Ok(None),
        }
    }

    /// The chunk shape of a chunked layout; none otherwise, or when it
    /// cannot be read.
    pub fn chunk(&self) -> (r: Option<Vec<usize>>)
        ensures
            match spec_chunk_of(self.reads().layout, self.reads().chunk) {
                Ok(Some(b)) => r is Some && r->0@ == b,
                _ => r is None,
            },
    {
        match self.get_chunk() {
            Ok(v) => v,
            Err(_) => None,
        }
    }

    pub fn get_chunk_opts(&self) -> (r: Result<Option<ChunkOpts>, Error>)
        ensures
            match (r, self.reads().layout) {
                (Err(e), Err(g)) => e@ == g@,
                (_, Err(_)) => false,
                (r, Ok(code)) => if spec_layout_of(code) == Layout::Chunked {
                    match (r, self.reads().chunk_opts) {
                        (Ok(Some(o)), Ok(bits)) => o == chunk_opts_of_bits(bits & CHUNK_DONT_FILTER_PARTIAL_CHUNKS),
                        (Err(e), Err(g)) => e@ == g@,
                        _ => false,
                    }
                } else {
                    r == Ok::<Option<ChunkOpts>, Error>(None)
                },
            },
    {
        match self.get_layout() {
            Err(e) => Err(e),
            Ok(Layout::Chunked) => match &self.reads.chunk_opts {
                Ok(bits) => Ok(Some(ChunkOpts::from_bits_truncate(*bits))),
                Err(e) => Err(dup_error(e)),
            },
            Ok(_) => Ok(None),
        }
    }

    /// The chunk options of a chunked layout; none otherwise, or when they
    /// cannot be read.
    pub fn chunk_opts(&self) -> (r: Option<ChunkOpts>)
        ensures
            match (self.reads().layout, self.reads().chunk_opts) {
                (Ok(code), Ok(bits)) => if spec_layout_of(code) == Layout::Chunked {
                    r == Some(chunk_opts_of_bits(bits & CHUNK_DONT_FILTER_PARTIAL_CHUNKS))
                } else {
                    r is None
                },
                _ => r is None,
            },
    {
        match self.get_chunk_opts() {
            Ok(v) => v,
            Err(_) => None,
        }
    }

    pub fn get_external(&self) -> (r: Result<Vec<ExternalFile>, Error>)
        ensures
            match (r, self.reads().external) {
                (Ok(a), Ok(b)) => a@.len() == b@.len() && forall|i: int|
                    0 <= i < b@.len() ==> external_matches(#[trigger] a@[i], b@[i]),
                (Err(e), Err(g)) => e@ == g@,
                _ => false,
            },
    {
        match &self.reads.external {
            Ok(v) => {
                let mut out: Vec<ExternalFile> = Vec::new();
                let mut i: usize = 0;
                while i < v.len()
                    invariant
                        i <= v@.len(),
                        out@.len() == i,
                        forall|k: int| 0 <= k < i ==> external_matches(#[trigger] out@[k], v@[k]),
                    decreases v@.len() - i,
                {
                    let e = &v[i];
                    let size: usize = if e.2 == EXTERNAL_UNLIMITED { 0 } else { e.2 as usize };
                    out.push(ExternalFile { name: string_of(e.0.as_str()), offset: e.1 as usize, size });
                    i = i + 1;
                }
                Ok(out)
            },
            Err(e) => Err(dup_error(e)),
        }
    }

    /// The external files; none when they cannot be read.
    pub fn external(&self) -> (r: Vec<ExternalFile>)
        ensures
            match self.reads().external {
                Ok(b) => r@.len() == b@.len() && forall|i: int|
                    0 <= i < b@.len() ==> external_matches(#[trigger] r@[i], b@[i]),
                Err(_) => r@.len() == 0,
            },
    {
        match self.get_external() {
            Ok(v) => v,
            Err(_) => Vec::new(),
        }
    }

    pub fn get_obj_track_times(&self) -> (r: Result<bool, Error>)
        ensures
            read_agrees(r, self.reads().obj_track_times, |v: u8| v > 0),
    {
        match &self.reads.obj_track_times {
            Ok(v) => Ok(*v > 0),
            Err(e) => Err(dup_error(e)),
        }
    }

    /// Whether object times are tracked; true when it cannot be read.
    pub fn obj_track_times(&self) -> (r: bool)
        ensures
            r == read_or(self.reads().obj_track_times, |v: u8| v > 0, true),
    {
        match self.get_obj_track_times() {
            Ok(v) => v,
            Err(_) => true,
        }
    }

    pub fn get_attr_phase_change(&self) -> (r: Result<AttrPhaseChange, Error>)
        ensures
            read_agrees(r, self.reads().attr_phase_change, |v: (u32, u32)| AttrPhaseChange { max_compact: v.0, min_dense: v.1 }),
    {
        match &self.reads.attr_phase_change {
            Ok(v) => Ok(AttrPhaseChange { max_compact: v.0, min_dense: v.1 }),
            Err(e) => Err(dup_error(e)),
        }
    }

    /// The attribute phase change thresholds; the defaults when they cannot
    /// be read.
    pub fn attr_phase_change(&self) -> (r: AttrPhaseChange)
        ensures
            r == read_or(
                self.reads().attr_phase_change,
                |v: (u32, u32)| AttrPhaseChange { max_compact: v.0, min_dense: v.1 },
                AttrPhaseChange { max_compact: 8, min_dense: 6 },
            ),
    {
        match self.get_attr_phase_change() {
            Ok(v) => v,
            Err(_) => AttrPhaseChange::default(),
        }
    }

    pub fn get_attr_creation_order(&self) -> (r: Result<AttrCreationOrder, Error>)
        ensures
            read_agrees(r, self.reads().attr_creation_order, |b: u32| crt_order_of_bits(b & CRT_ORDER_ALL)),
    {
        match &self.reads.attr_creation_order {
            Ok(b) => Ok(AttrCreationOrder::from_bits_truncate(*b)),
            Err(e) => Err(dup_error(e)),
        }
    }

    /// The attribute creation order setting; neither tracked nor indexed
    /// when it cannot be read.
    pub fn attr_creation_order(&self) -> (r: AttrCreationOrder)
        ensures
            r == read_or(self.reads().attr_creation_order, |b: u32| crt_order_of_bits(b & CRT_ORDER_ALL), crt_order_of_bits(0)),
    {
        match self.get_attr_creation_order() {
            Ok(v) => v,
            Err(_) => AttrCreationOrder::default(),
        }
    }
}

/// The number that bytes stand for, least significant byte first.
pub open spec fn le_value(b: Seq<u8>) -> nat
    decreases b.len(),
{
    if b.len() == 0 {
        0
    } else {
        (b[0] + 256 * le_value(b.drop_first())) as nat
    }
}

proof fn lemma_le_value_bound(b: Seq<u8>)
    ensures
        le_value(b) < vstd::arithmetic::power::pow(256, b.len()),
    decreases b.len(),
{
    reveal(vstd::arithmetic::power::pow);
    if b.len() > 0 {
        lemma_le_value_bound(b.drop_first());
        let v = le_value(b.drop_first()) as int;
        let p = vstd::arithmetic::power::pow(256, b.drop_first().len());
        let x = b[0] as int;
        assert(vstd::arithmetic::power::pow(256, b.len()) == 256 * p);
        assert(x + 256 * v < 256 * p) by (nonlinear_arith)
            requires
                0 <= x < 256,
                0 <= v < p,
        ;
    }
}

/// The number that the bytes stand for, least significant byte first.
fn le_u64(b: &[u8]) -> (r: u64)
    requires
        b@.len() <= 8,
    ensures
        r == le_value(b@),
{
    let n = b.len();
    let mut acc: u64 = 0;
    let mut i: usize = n;
    proof {
        assert(b@.subrange(n as int, n as int) =~= Seq::<u8>::empty());
    }
    while i > 0
        invariant
            i <= n == b@.len() <= 8,
            acc == le_value(b@.subrange(i as int, n as int)),
        decreases i,
    {
        let ghost rest = b@.subrange(i as int, n as int);
        i = i - 1;
        let ghost cur = b@.subrange(i as int, n as int);
        proof {
            assert(cur.drop_first() =~= rest);
            lemma_le_value_bound(rest);
            vstd::arithmetic::power::lemma_pow_increases(256, rest.len(), 7);
            assert(rest.len() <= 7);
            assert(vstd::arithmetic::power::pow(256, 7) == 72057594037927936) by {
                reveal_with_fuel(vstd::arithmetic::power::pow, 8);
            }
        }
        acc = acc * 256 + b[i] as u64;
    }
    proof {
        assert(b@.subrange(0, n as int) =~= b@);
    }
    acc
}

/// Scalar types a fill value can be read as: their size, and the value
/// that their bytes stand for (least significant byte first).
pub trait FillScalar: Sized {
    spec fn spec_size() -> usize;

    spec fn spec_from_bytes(b: Seq<u8>) -> Self;

    fn size() -> (r: usize)
        ensures
            r == Self::spec_size(),
            1 <= r <= 8;

    fn from_bytes(b: &[u8]) -> (r: Self)
        requires
            b@.len() == Self::spec_size(),
        ensures
            r == Self::spec_from_bytes(b@);
}

impl FillScalar for u8 {
    open spec fn spec_size() -> usize {
        1
    }

    open spec fn spec_from_bytes(b: Seq<u8>) -> u8 {
        le_value(b) as u8
    }

    fn size() -> (r: usize) {
        1
    }

    fn from_bytes(b: &[u8]) -> (r: u8) {
        le_u64(b) as u8
    }
}

impl FillScalar for u16 {
    open spec fn spec_size() -> usize {
        2
    }

    open spec fn spec_from_bytes(b: Seq<u8>) -> u16 {
        le_value(b) as u16
    }

    fn size() -> (r: usize) {
        2
    }

    fn from_bytes(b: &[u8]) -> (r: u16) {
        le_u64(b) as u16
    }
}

impl FillScalar for u32 {
    open spec fn spec_size() -> usize {
        4
    }

    open spec fn spec_from_bytes(b: Seq<u8>) -> u32 {
        le_value(b) as u32
    }

    fn size() -> (r: usize) {
        4
    }

    fn from_bytes(b: &[u8]) -> (r: u32) {
        le_u64(b) as u32
    }
}

impl FillScalar for u64 {
    open spec fn spec_size() -> usize {
        8
    }

    open spec fn spec_from_bytes(b: Seq<u8>) -> u64 {
        le_value(b) as u64
    }

    fn size() -> (r: usize) {
        8
    }

    fn from_bytes(b: &[u8]) -> (r: u64) {
        le_u64(b)
    }
}

impl FillScalar for i8 {
    open spec fn spec_size() -> usize {
        1
    }

    open spec fn spec_from_bytes(b: Seq<u8>) -> i8 {
        (le_value(b) as u8) as i8
    }

    fn size() -> (r: usize) {
        1
    }

    fn from_bytes(b: &[u8]) -> (r: i8) {
        (le_u64(b) as u8) as i8
    }
}

impl FillScalar for i16 {
    open spec fn spec_size() -> usize {
        2
    }

    open spec fn spec_from_bytes(b: Seq<u8>) -> i16 {
        (le_value(b) as u16) as i16
    }

    fn size() -> (r: usize) {
        2
    }

    fn from_bytes(b: &[u8]) -> (r: i16) {
        (le_u64(b) as u16) as i16
    }
}

impl FillScalar for i32 {
    open spec fn spec_size() -> usize {
        4
    }

    open spec fn spec_from_bytes(b: Seq<u8>) -> i32 {
        (le_value(b) as u32) as i32
    }

    fn size() -> (r: usize) {
        4
    }

    fn from_bytes(b: &[u8]) -> (r: i32) {
        (le_u64(b) as u32) as i32
    }
}

impl FillScalar for i64 {
    open spec fn spec_size() -> usize {
        8
    }

    open spec fn spec_from_bytes(b: Seq<u8>) -> i64 {
        (le_value(b) as u64) as i64
    }

    fn size() -> (r: usize) {
        8
    }

    fn from_bytes(b: &[u8]) -> (r: i64) {
        le_u64(b) as i64
    }
}

/// The fill value read as a `T`: present when the fill value is defined
/// (by default or by the user) and `raw`, the bytes that reading it for
/// `T`'s datatype gave, holds one `T`.
pub open spec fn spec_fill_value_as<T: FillScalar>(defined: Result<i32, Error>, raw: Result<Vec<u8>, Error>) -> Option<T> {
    match defined {
        Ok(code) => if spec_fill_value_of(code) == FillValue::Undefined {
            None
        } else {
            match raw {
                Ok(b) => if b@.len() == T::spec_size() {
                    Some(T::spec_from_bytes(b@))
                } else {
                    None
                },
                Err(_) => None,
            }
        },
        Err(_) => None,
    }
}

impl DatasetCreate {
    /// The fill value as a `T`, from the bytes that reading it for `T`'s
    /// datatype gave (least significant byte first); none when it is not
    /// defined or cannot be read.
    pub fn fill_value_as<T: FillScalar>(&self, raw: Result<Vec<u8>, Error>) -> (r: Option<T>)
        ensures
            r == spec_fill_value_as::<T>(self.reads().fill_value_defined, raw),
    {
        match self.fill_value_defined() {
            FillValue::Undefined => None,
            _ => match raw {
                Ok(b) => {
                    if b.len() == T::size() {
                        Some(T::from_bytes(b.as_slice()))
                    } else {
                        None
                    }
                },
                Err(_) => None,
            },
        }
    }
}

} // verus!

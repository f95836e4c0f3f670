//! File creation properties: their values as read from a property list, and
//! a builder that collects the settings of a new one.

use vstd::prelude::*;
use crate::error::{Error, ErrorView};

verus! {

/// Size of the offsets and lengths used in a file.
#[derive(Clone, Copy, Debug, PartialEq, Eq)]
pub struct SizeofInfo {
    /// Offset size in bytes.
    pub sizeof_addr: usize,
    /// Length size in bytes.
    pub sizeof_size: usize,
}

impl Default for SizeofInfo {
    fn default() -> (r: Self)
        ensures
            r == (SizeofInfo { sizeof_addr: 0, sizeof_size: 0 }),
    {
        SizeofInfo { sizeof_addr: 0, sizeof_size: 0 }
    }
}

/// Size of parameters used to control the symbol table nodes.
#[derive(Clone, Copy, Debug, PartialEq, Eq)]
pub struct SymbolTableInfo {
    /// Symbol table tree rank (one half the rank of the B-tree of a group).
    pub tree_rank: u32,
    /// Symbol table node size (one half the number of symbols of a node).
    pub node_size: u32,
}

impl Default for SymbolTableInfo {
    fn default() -> (r: Self)
        ensures
            r == (SymbolTableInfo { tree_rank: 0, node_size: 0 }),
    {
        SymbolTableInfo { tree_rank: 0, node_size: 0 }
    }
}

/// Thresholds at which a shared message index switches between list and
/// B-tree storage.
#[derive(Clone, Copy, Debug, PartialEq, Eq)]
pub struct PhaseChangeInfo {
    /// Above this many messages an index is stored as a B-tree.
    pub max_list: u32,
    /// Below this many messages an index reverts to a list.
    pub min_btree: u32,
}

impl Default for PhaseChangeInfo {
    fn default() -> (r: Self)
        ensures
            r == (PhaseChangeInfo { max_list: 0, min_btree: 0 }),
    {
        PhaseChangeInfo { max_list: 0, min_btree: 0 }
    }
}

/// Types of messages that can be stored in a shared message index, as a set
/// of flag bits.
#[derive(Clone, Copy, Debug, PartialEq, Eq)]
pub struct SharedMessageType {
    bits: u32,
}

/// No shared messages.
pub const SHMESG_NONE: u32 = 0;
/// Simple dataspace message.
pub const SHMESG_SIMPLE_DATASPACE: u32 = 2;
/// Datatype message.
pub const SHMESG_DATATYPE: u32 = 8;
/// Fill value message.
pub const SHMESG_FILL_VALUE: u32 = 32;
/// Filter pipeline message.
pub const SHMESG_FILTER_PIPELINE: u32 = 2048;
/// Attribute message.
pub const SHMESG_ATTRIBUTE: u32 = 4096;
/// All message types.
pub const SHMESG_ALL: u32 = 6186;

impl SharedMessageType {
    /// The flag bits of the set.
    pub closed spec fn spec_bits(self) -> u32 {
        self.bits
    }

    /// The flag bits.
    pub fn bits(self) -> (r: u32)
        ensures
            r == self.spec_bits(),
    {
        self.bits
    }

    /// The set of the known message types among `bits`; other bits are
    /// dropped.
    pub fn from_bits_truncate(bits: u32) -> (r: Self)
        ensures
            r == shmesg_of_bits(bits & SHMESG_ALL),
    {
        SharedMessageType { bits: bits & SHMESG_ALL }
    }

    /// The set of the given flag bits, if they are all known message types.
    pub fn from_bits(bits: u32) -> (r: Option<Self>)
        ensures
            (bits & !SHMESG_ALL == 0) ==> r == Some(shmesg_of_bits(bits)),
            (bits & !SHMESG_ALL != 0) ==> r is None,
    {
        if bits & !SHMESG_ALL == 0 {
            Some(SharedMessageType { bits })
        } else {
            None
        }
    }

    /// Whether every type of `other` is in the set.
    pub fn contains(self, other: Self) -> (r: bool)
        ensures
            r == (self.spec_bits() & other.spec_bits() == other.spec_bits()),
    {
        self.bits & other.bits == other.bits
    }
}

/// The set of message types with the given flag bits.
pub closed spec fn shmesg_of_bits(bits: u32) -> SharedMessageType {
    SharedMessageType { bits }
}

/// The set made of some flag bits has those bits.
pub proof fn shmesg_bits_of(bits: u32)
    ensures
        shmesg_of_bits(bits).spec_bits() == bits,
{
}

impl Default for SharedMessageType {
    fn default() -> (r: Self)
        ensures
            r == shmesg_of_bits(SHMESG_NONE),
    {
        SharedMessageType { bits: SHMESG_NONE }
    }
}

/// Configuration of a shared message index.
#[derive(Clone, Copy, Debug, PartialEq, Eq)]
pub struct SharedMessageIndex {
    /// Types of messages that may be stored in the index.
    pub message_types: SharedMessageType,
    /// Minimum message size.
    pub min_message_size: u32,
}

/// File space handling strategy.
#[derive(Clone, Copy, Debug, PartialEq, Eq)]
pub enum FileSpaceStrategy {
    /// Free-space managers, aggregators or embedded paged aggregation, and the
    /// virtual file driver.
    FreeSpaceManager {
        /// Whether to use embedded paged aggregation.
        paged: bool,
        /// Whether free space is persistent.
        persist: bool,
        /// The free-space section size threshold.
        threshold: u64,
    },
    /// Aggregators and the virtual file driver.
    PageAggregation,
    /// The virtual file driver alone.
    NoStrategy,
}

impl Default for FileSpaceStrategy {
    fn default() -> (r: Self)
        ensures
            r == (FileSpaceStrategy::FreeSpaceManager { paged: false, persist: false, threshold: 1 }),
    {
        FileSpaceStrategy::FreeSpaceManager { paged: false, persist: false, threshold: 1 }
    }
}

/// Strategy code of free-space managers with aggregators.
pub const FSPACE_STRATEGY_FSM_AGGR: i32 = 0;
/// Strategy code of paged free-space managers.
pub const FSPACE_STRATEGY_PAGE: i32 = 1;
/// Strategy code of aggregators only.
pub const FSPACE_STRATEGY_AGGR: i32 = 2;
/// Strategy code of no strategy.
pub const FSPACE_STRATEGY_NONE: i32 = 3;

/// The strategy that a strategy code, a persistence flag and a threshold
/// stand for.
pub open spec fn spec_strategy_of(code: i32, persist: u8, threshold: u64) -> FileSpaceStrategy {
    if code == FSPACE_STRATEGY_FSM_AGGR {
        FileSpaceStrategy::FreeSpaceManager { paged: false, persist: persist != 0, threshold }
    } else if code == FSPACE_STRATEGY_PAGE {
        FileSpaceStrategy::FreeSpaceManager { paged: true, persist: persist != 0, threshold }
    } else if code == FSPACE_STRATEGY_AGGR {
        FileSpaceStrategy::PageAggregation
    } else {
        FileSpaceStrategy::NoStrategy
    }
}

/// The strategy code, persistence flag and threshold of a strategy.
pub open spec fn spec_strategy_code(s: FileSpaceStrategy) -> (i32, u8, u64) {
    match s {
        FileSpaceStrategy::FreeSpaceManager { paged, persist, threshold } => (
            if paged { FSPACE_STRATEGY_PAGE } else { FSPACE_STRATEGY_FSM_AGGR },
            if persist { 1u8 } else { 0u8 },
            threshold,
        ),
        FileSpaceStrategy::PageAggregation => (FSPACE_STRATEGY_AGGR, 0u8, 0u64),
        FileSpaceStrategy::NoStrategy => (FSPACE_STRATEGY_NONE, 0u8, 0u64),
    }
}

impl FileSpaceStrategy {
    /// The strategy that the library's code, persistence flag and threshold
    /// stand for.
    pub fn from_raw(code: i32, persist: u8, threshold: u64) -> (r: Self)
        ensures
            r == spec_strategy_of(code, persist, threshold),
    {
        if code == FSPACE_STRATEGY_FSM_AGGR {
            FileSpaceStrategy::FreeSpaceManager { paged: false, persist: persist != 0, threshold }
        } else if code == FSPACE_STRATEGY_PAGE {
            FileSpaceStrategy::FreeSpaceManager { paged: true, persist: persist != 0, threshold }
        } else if code == FSPACE_STRATEGY_AGGR {
            FileSpaceStrategy::PageAggregation
        } else {
            FileSpaceStrategy::NoStrategy
        }
    }

    /// The code, persistence flag and threshold the library is given.
    pub fn to_raw(self) -> (r: (i32, u8, u64))
        ensures
            r == spec_strategy_code(self),
    {
        match self {
            FileSpaceStrategy::FreeSpaceManager { paged, persist, threshold } => (
                if paged { FSPACE_STRATEGY_PAGE } else { FSPACE_STRATEGY_FSM_AGGR },
                if persist { 1u8 } else { 0u8 },
                threshold,
            ),
            FileSpaceStrategy::PageAggregation => (FSPACE_STRATEGY_AGGR, 0u8, 0u64),
            FileSpaceStrategy::NoStrategy => (FSPACE_STRATEGY_NONE, 0u8, 0u64),
        }
    }
}

/// A strategy read back from what it is stored as is the same strategy,
/// except that the threshold of a strategy without free-space managers is not
/// kept.
pub proof fn strategy_roundtrip(s: FileSpaceStrategy)
    ensures
        ({
            let (c, p, t) = spec_strategy_code(s);
            spec_strategy_of(c, p, t) == s
        }),
{
}

/// The shared message index that the library's flags and minimum size
/// stand for.
pub open spec fn spec_index_of(flags: u32, min_size: u32) -> SharedMessageIndex {
    SharedMessageIndex {
        message_types: shmesg_of_bits(flags & SHMESG_ALL),
        min_message_size: min_size,
    }
}

/// What reading the properties of a file creation property list gave: each
/// read's result, as the library returned it.
pub struct FileCreateReads {
    pub userblock: Result<u64, Error>,
    pub sizes: Result<(usize, usize), Error>,
    pub sym_k: Result<(u32, u32), Error>,
    pub istore_k: Result<u32, Error>,
    pub shared_mesg_phase_change: Result<(u32, u32), Error>,
    /// The flags and minimum message size of each shared message index.
    pub shared_mesg_indexes: Result<Vec<(u32, u32)>, Error>,
    pub file_space_page_size: Result<u64, Error>,
    /// The strategy code, persistence flag and threshold.
    pub file_space_strategy: Result<(i32, u8, u64), Error>,
}

/// File creation property list, as read from the library.
pub struct FileCreate {
    reads: FileCreateReads,
}

/// A read and the value it stands for agree: the same error, or the value.
pub open spec fn read_matches<T, U>(r: Result<T, Error>, raw: Result<U, Error>, f: spec_fn(U) -> T) -> bool {
    match (r, raw) {
        (Ok(a), Ok(b)) => a == f(b),
        (Err(e), Err(g)) => e@ == g@,
        _ => false,
    }
}

fn dup_err(e: &Error) -> (r: Error)
    ensures
        r@ == e@,
{
    e.duplicate()
}

impl FileCreate {
    /// The property list whose properties read as `reads`.
    pub fn new(reads: FileCreateReads) -> (r: Self)
        ensures
            r.reads() == reads,
    {
        FileCreate { reads }
    }

    /// What reading the properties gave.
    pub closed spec fn reads(&self) -> FileCreateReads {
        self.reads
    }

    /// A builder with no setting yet.
    pub fn build() -> (r: FileCreateBuilder)
        ensures
            r@ == empty_builder(),
    {
        FileCreateBuilder::new()
    }

    pub fn get_userblock(&self) -> (r: Result<u64, Error>)
        ensures
            read_matches(r, self.reads().userblock, |v: u64| v),
    {
        match &self.reads.userblock {
            Ok(v) => Ok(*v),
            Err(e) => Err(dup_err(e)),
        }
    }

    pub fn get_sizes(&self) -> (r: Result<SizeofInfo, Error>)
        ensures
            read_matches(r, self.reads().sizes, |v: (usize, usize)| SizeofInfo { sizeof_addr: v.0, sizeof_size: v.1 }),
    {
        match &self.reads.sizes {
            Ok(v) => Ok(SizeofInfo { sizeof_addr: v.0, sizeof_size: v.1 }),
            Err(e) => Err(dup_err(e)),
        }
    }

    pub fn get_sym_k(&self) -> (r: Result<SymbolTableInfo, Error>)
        ensures
            read_matches(r, self.reads().sym_k, |v: (u32, u32)| SymbolTableInfo { tree_rank: v.0, node_size: v.1 }),
    {
        match &self.reads.sym_k {
            Ok(v) => Ok(SymbolTableInfo { tree_rank: v.0, node_size: v.1 }),
            Err(e) => Err(dup_err(e)),
        }
    }

    pub fn get_istore_k(&self) -> (r: Result<u32, Error>)
        ensures
            read_matches(r, self.reads().istore_k, |v: u32| v),
    {
        match &self.reads.istore_k {
            Ok(v) => Ok(*v),
            Err(e) => Err(dup_err(e)),
        }
    }

    pub fn get_shared_mesg_phase_change(&self) -> (r: Result<PhaseChangeInfo, Error>)
        ensures
            read_matches(r, self.reads().shared_mesg_phase_change, |v: (u32, u32)| PhaseChangeInfo { max_list: v.0, min_btree: v.1 }),
    {
        match &self.reads.shared_mesg_phase_change {
            Ok(v) => Ok(PhaseChangeInfo { max_list: v.0, min_btree: v.1 }),
            Err(e) => Err(dup_err(e)),
        }
    }

    pub fn get_shared_mesg_indexes(&self) -> (r: Result<Vec<SharedMessageIndex>, Error>)
        ensures
            match (r, self.reads().shared_mesg_indexes) {
                (Ok(a), Ok(b)) => a@.len() == b@.len() && forall|i: int| 0 <= i < b@.len()
                    ==> #[trigger] a@[i] == spec_index_of(b@[i].0, b@[i].1),
                (Err(e), Err(g)) => e@ == g@,
                _ => false,
            },
    {
        match &self.reads.shared_mesg_indexes {
            Ok(raw) => {
                let mut out: Vec<SharedMessageIndex> = Vec::new();
                let mut i: usize = 0;
                while i < raw.len()
                    invariant
                        i <= raw@.len(),
                        out@.len() == i,
                        forall|k: int| 0 <= k < i ==> #[trigger] out@[k] == spec_index_of(raw@[k].0, raw@[k].1),
                    decreases raw@.len() - i,
                {
                    let (flags, min_size) = raw[i];
                    out.push(SharedMessageIndex {
                        message_types: SharedMessageType::from_bits_truncate(flags),
                        min_message_size: min_size,
                    });
                    i = i + 1;
                }
                Ok(out)
            },
            Err(e) => Err(dup_err(e)),
        }
    }

    pub fn get_file_space_page_size(&self) -> (r: Result<u64, Error>)
        ensures
            read_matches(r, self.reads().file_space_page_size, |v: u64| v),
    {
        match &self.reads.file_space_page_size {
            Ok(v) => Ok(*v),
            Err(e) => Err(dup_err(e)),
        }
    }

    pub fn get_file_space_strategy(&self) -> (r: Result<FileSpaceStrategy, Error>)
        ensures
            read_matches(r, self.reads().file_space_strategy, |v: (i32, u8, u64)| spec_strategy_of(v.0, v.1, v.2)),
    {
        match &self.reads.file_space_strategy {
            Ok(v) => Ok(FileSpaceStrategy::from_raw(v.0, v.1, v.2)),
            Err(e) => Err(dup_err(e)),
        }
    }

    /// The user block size; 0 when it cannot be read.
    pub fn userblock(&self) -> (r: u64)
        ensures
            r == match self.reads().userblock {
                Ok(v) => v,
                Err(_) => 0u64,
            },
    {
        match self.get_userblock() {
            Ok(v) => v,
            Err(_) => 0,
        }
    }

    /// The sizes of offsets and lengths; zero when they cannot be read.
    pub fn sizes(&self) -> (r: SizeofInfo)
        ensures
            r == match self.reads().sizes {
                Ok(v) => SizeofInfo { sizeof_addr: v.0, sizeof_size: v.1 },
                Err(_) => SizeofInfo { sizeof_addr: 0, sizeof_size: 0 },
            },
    {
        match self.get_sizes() {
            Ok(v) => v,
            Err(_) => SizeofInfo::default(),
        }
    }

    /// The symbol table parameters; zero when they cannot be read.
    pub fn sym_k(&self) -> (r: SymbolTableInfo)
        ensures
            r == match self.reads().sym_k {
                Ok(v) => SymbolTableInfo { tree_rank: v.0, node_size: v.1 },
                Err(_) => SymbolTableInfo { tree_rank: 0, node_size: 0 },
            },
    {
        match self.get_sym_k() {
            Ok(v) => v,
            Err(_) => SymbolTableInfo::default(),
        }
    }

    /// The chunk index B-tree parameter; 0 when it cannot be read.
    pub fn istore_k(&self) -> (r: u32)
        ensures
            r == match self.reads().istore_k {
                Ok(v) => v,
                Err(_) => 0u32,
            },
    {
        match self.get_istore_k() {
            Ok(v) => v,
            Err(_) => 0,
        }
    }

    /// The shared message phase change thresholds; zero when they cannot be
    /// read.
    pub fn shared_mesg_phase_change(&self) -> (r: PhaseChangeInfo)
        ensures
            r == match self.reads().shared_mesg_phase_change {
                Ok(v) => PhaseChangeInfo { max_list: v.0, min_btree: v.1 },
                Err(_) => PhaseChangeInfo { max_list: 0, min_btree: 0 },
            },
    {
        match self.get_shared_mesg_phase_change() {
            Ok(v) => v,
            Err(_) => PhaseChangeInfo::default(),
        }
    }

    /// The shared message indexes; none when they cannot be read.
    pub fn shared_mesg_indexes(&self) -> (r: Vec<SharedMessageIndex>)
        ensures
            match self.reads().shared_mesg_indexes {
                Ok(b) => r@.len() == b@.len() && forall|i: int| 0 <= i < b@.len()
                    ==> #[trigger] r@[i] == spec_index_of(b@[i].0, b@[i].1),
                Err(_) => r@.len() == 0,
            },
    {
        match self.get_shared_mesg_indexes() {
            Ok(v) => v,
            Err(_) => Vec::new(),
        }
    }

    /// The file space page size; 0 when it cannot be read.
    pub fn file_space_page_size(&self) -> (r: u64)
        ensures
            r == match self.reads().file_space_page_size {
                Ok(v) => v,
                Err(_) => 0u64,
            },
    {
        match self.get_file_space_page_size() {
            Ok(v) => v,
            Err(_) => 0,
        }
    }

    /// The file space strategy; the default strategy when it cannot be read.
    pub fn file_space_strategy(&self) -> (r: FileSpaceStrategy)
        ensures
            r == match self.reads().file_space_strategy {
                Ok(v) => spec_strategy_of(v.0, v.1, v.2),
                Err(_) => FileSpaceStrategy::FreeSpaceManager { paged: false, persist: false, threshold: 1 },
            },
    {
        match self.get_file_space_strategy() {
            Ok(v) => v,
            Err(_) => FileSpaceStrategy::default(),
        }
    }
}

/// Abstract value of a [`FileCreateBuilder`]: the settings given so far.
pub struct FileCreateBuilderView {
    pub userblock: Option<u64>,
    pub sym_k: Option<SymbolTableInfo>,
    pub istore_k: Option<u32>,
    pub shared_mesg_phase_change: Option<PhaseChangeInfo>,
    pub shared_mesg_indexes: Option<Seq<SharedMessageIndex>>,
    pub file_space_page_size: Option<u64>,
    pub file_space_strategy: Option<FileSpaceStrategy>,
}

/// A builder with no setting.
pub open spec fn empty_builder() -> FileCreateBuilderView {
    FileCreateBuilderView {
        userblock: None,
        sym_k: None,
        istore_k: None,
        shared_mesg_phase_change: None,
        shared_mesg_indexes: None,
        file_space_page_size: None,
        file_space_strategy: None,
    }
}

/// Builder of a file creation property list.
#[derive(Clone, Debug)]
pub struct FileCreateBuilder {
    userblock: Option<u64>,
    sym_k: Option<SymbolTableInfo>,
    istore_k: Option<u32>,
    shared_mesg_phase_change: Option<PhaseChangeInfo>,
    shared_mesg_indexes: Option<Vec<SharedMessageIndex>>,
    file_space_page_size: Option<u64>,
    file_space_strategy: Option<FileSpaceStrategy>,
}

impl View for FileCreateBuilder {
    type V = FileCreateBuilderView;

    closed spec fn view(&self) -> FileCreateBuilderView {
        FileCreateBuilderView {
            userblock: self.userblock,
            sym_k: self.sym_k,
            istore_k: self.istore_k,
            shared_mesg_phase_change: self.shared_mesg_phase_change,
            shared_mesg_indexes: match self.shared_mesg_indexes {
                Some(v) => Some(v@),
                None => None,
            },
            file_space_page_size: self.file_space_page_size,
            file_space_strategy: self.file_space_strategy,
        }
    }
}

/// One setting of a file creation property list, as the library is given
/// it, in the order the builder applies them.
#[derive(Clone, Copy, Debug, PartialEq, Eq)]
pub enum FileCreateSetting {
    Userblock(u64),
    SymK(u32, u32),
    IstoreK(u32),
    SharedMesgPhaseChange(u32, u32),
    SharedMesgNindexes(u32),
    SharedMesgIndex(u32, u32, u32),
    FileSpacePageSize(u64),
    FileSpaceStrategy(i32, u8, u64),
}

/// The settings of the shared message indexes: their number, then each
/// index's position, flag bits and minimum size.
pub open spec fn index_settings(v: Seq<SharedMessageIndex>) -> Seq<FileCreateSetting> {
    seq![FileCreateSetting::SharedMesgNindexes(v.len() as u32)] + Seq::new(
        v.len(),
        |i: int| FileCreateSetting::SharedMesgIndex(i as u32, v[i].message_types.spec_bits(), v[i].min_message_size),
    )
}

/// A setting when its value was given, nothing otherwise.
pub open spec fn opt_setting<T>(v: Option<T>, f: spec_fn(T) -> FileCreateSetting) -> Seq<FileCreateSetting> {
    match v {
        Some(x) => seq![f(x)],
        None => Seq::empty(),
    }
}

/// The first settings a builder applies: user block, symbol table, chunk
/// index and phase change.
pub open spec fn settings_head(b: FileCreateBuilderView) -> Seq<FileCreateSetting> {
    opt_setting(b.userblock, |v: u64| FileCreateSetting::Userblock(v))
        + opt_setting(b.sym_k, |v: SymbolTableInfo| FileCreateSetting::SymK(v.tree_rank, v.node_size))
        + opt_setting(b.istore_k, |v: u32| FileCreateSetting::IstoreK(v))
        + opt_setting(b.shared_mesg_phase_change, |v: PhaseChangeInfo| FileCreateSetting::SharedMesgPhaseChange(v.max_list, v.min_btree))
}

/// The settings of the shared message indexes a builder applies.
pub open spec fn settings_indexes(b: FileCreateBuilderView) -> Seq<FileCreateSetting> {
    match b.shared_mesg_indexes {
        Some(v) => index_settings(v),
        None => Seq::empty(),
    }
}

/// The last settings a builder applies: file space page size and strategy.
pub open spec fn settings_tail(b: FileCreateBuilderView) -> Seq<FileCreateSetting> {
    opt_setting(b.file_space_page_size, |v: u64| FileCreateSetting::FileSpacePageSize(v))
        + opt_setting(b.file_space_strategy, |v: FileSpaceStrategy| FileCreateSetting::FileSpaceStrategy(
            spec_strategy_code(v).0,
            spec_strategy_code(v).1,
            spec_strategy_code(v).2,
        ))
}

/// The settings a builder applies to a new property list, in order.
pub open spec fn builder_settings(b: FileCreateBuilderView) -> Seq<FileCreateSetting> {
    settings_head(b) + settings_indexes(b) + settings_tail(b)
}

impl FileCreateBuilder {
    /// A builder with no setting.
    pub fn new() -> (r: Self)
        ensures
            r@ == empty_builder(),
    {
        FileCreateBuilder {
            userblock: None,
            sym_k: None,
            istore_k: None,
            shared_mesg_phase_change: None,
            shared_mesg_indexes: None,
            file_space_page_size: None,
            file_space_strategy: None,
        }
    }

    /// A builder holding every property of `plist`; the first property that
    /// cannot be read makes it fail with that read's error.
    pub fn from_plist(plist: &FileCreate) -> (r: Result<Self, Error>)
        ensures
            match r {
                Ok(b) => builder_of_reads(plist.reads()) == Some(b@),
                Err(e) => builder_of_reads(plist.reads()) is None && e@ == first_read_error(plist.reads()),
            },
    {
        let mut builder = FileCreateBuilder::new();
        let v = plist.get_userblock()?;
        builder.userblock(v);
        let v = plist.get_sym_k()?;
        builder.sym_k(v.tree_rank, v.node_size);
        let v = plist.get_istore_k()?;
        builder.istore_k(v);
        let v = plist.get_shared_mesg_phase_change()?;
        builder.shared_mesg_phase_change(v.max_list, v.min_btree);
        let v = plist.get_shared_mesg_indexes()?;
        let ghost ix = plist.reads().shared_mesg_indexes->Ok_0;
        assert(v@ =~= Seq::new(ix@.len(), |i: int| spec_index_of(ix@[i].0, ix@[i].1)));
        builder.shared_mesg_indexes(v.as_slice());
        let v = plist.get_file_space_page_size()?;
        builder.file_space_page_size(v);
        let v = plist.get_file_space_strategy()?;
        builder.file_space_strategy(v);
        Ok(builder)
    }

    /// Sets the user block size (0, or a power of two of 512 or more).
    pub fn userblock(&mut self, size: u64) -> (r: &mut Self)
        ensures
            r@ == (FileCreateBuilderView { userblock: Some(size), ..old(self)@ }),
            final(self)@ == final(r)@,
    {
        self.userblock = Some(size);
        self
    }

    /// Sets the symbol table parameters; a zero keeps the current value.
    pub fn sym_k(&mut self, tree_rank: u32, node_size: u32) -> (r: &mut Self)
        ensures
            r@ == (FileCreateBuilderView { sym_k: Some(SymbolTableInfo { tree_rank, node_size }), ..old(self)@ }),
            final(self)@ == final(r)@,
    {
        self.sym_k = Some(SymbolTableInfo { tree_rank, node_size });
        self
    }

    /// Sets the chunk index B-tree parameter.
    pub fn istore_k(&mut self, ik: u32) -> (r: &mut Self)
        ensures
            r@ == (FileCreateBuilderView { istore_k: Some(ik), ..old(self)@ }),
            final(self)@ == final(r)@,
    {
        self.istore_k = Some(ik);
        self
    }

    /// Sets the shared message phase change thresholds.
    pub fn shared_mesg_phase_change(&mut self, max_list: u32, min_btree: u32) -> (r: &mut Self)
        ensures
            r@ == (FileCreateBuilderView {
                shared_mesg_phase_change: Some(PhaseChangeInfo { max_list, min_btree }),
                ..old(self)@
            }),
            final(self)@ == final(r)@,
    {
        self.shared_mesg_phase_change = Some(PhaseChangeInfo { max_list, min_btree });
        self
    }

    /// Sets the shared message indexes.
    pub fn shared_mesg_indexes(&mut self, indexes: &[SharedMessageIndex]) -> (r: &mut Self)
        ensures
            r@ == (FileCreateBuilderView { shared_mesg_indexes: Some(indexes@), ..old(self)@ }),
            final(self)@ == final(r)@,
    {
        let mut v: Vec<SharedMessageIndex> = Vec::new();
        let mut i: usize = 0;
        while i < indexes.len()
            invariant
                i <= indexes@.len(),
                v@ == indexes@.take(i as int),
            decreases indexes@.len() - i,
        {
            v.push(indexes[i]);
            i = i + 1;
            assert(v@ =~= indexes@.take(i as int));
        }
        assert(indexes@.take(i as int) =~= indexes@);
        self.shared_mesg_indexes = Some(v);
        self
    }

    /// Sets the file space page size (at least 512).
    pub fn file_space_page_size(&mut self, fsp_size: u64) -> (r: &mut Self)
        ensures
            r@ == (FileCreateBuilderView { file_space_page_size: Some(fsp_size), ..old(self)@ }),
            final(self)@ == final(r)@,
    {
        self.file_space_page_size = Some(fsp_size);
        self
    }

    /// Sets the file space handling strategy.
    pub fn file_space_strategy(&mut self, strategy: FileSpaceStrategy) -> (r: &mut Self)
        ensures
            r@ == (FileCreateBuilderView { file_space_strategy: Some(strategy), ..old(self)@ }),
            final(self)@ == final(r)@,
    {
        self.file_space_strategy = Some(strategy);
        self
    }

    fn push_head(&self, out: &mut Vec<FileCreateSetting>)
        ensures
            final(out)@ == old(out)@ + settings_head(self@),
    {
        let ghost o = out@;
        if let Some(v) = self.userblock {
            out.push(FileCreateSetting::Userblock(v));
        }
        let ghost o1 = out@;
        assert(o1 =~= o + opt_setting(self@.userblock, |v: u64| FileCreateSetting::Userblock(v)));
        if let Some(v) = self.sym_k {
            out.push(FileCreateSetting::SymK(v.tree_rank, v.node_size));
        }
        let ghost o2 = out@;
        assert(o2 =~= o1 + opt_setting(self@.sym_k, |v: SymbolTableInfo| FileCreateSetting::SymK(v.tree_rank, v.node_size)));
        if let Some(v) = self.istore_k {
            out.push(FileCreateSetting::IstoreK(v));
        }
        let ghost o3 = out@;
        assert(o3 =~= o2 + opt_setting(self@.istore_k, |v: u32| FileCreateSetting::IstoreK(v)));
        if let Some(v) = self.shared_mesg_phase_change {
            out.push(FileCreateSetting::SharedMesgPhaseChange(v.max_list, v.min_btree));
        }
        assert(out@ =~= o3 + opt_setting(self@.shared_mesg_phase_change, |v: PhaseChangeInfo| FileCreateSetting::SharedMesgPhaseChange(v.max_list, v.min_btree)));
        assert(out@ =~= o + settings_head(self@));
    }

    fn push_indexes(&self, out: &mut Vec<FileCreateSetting>)
        requires
            self@.shared_mesg_indexes matches Some(v) ==> v.len() <= u32::MAX,
        ensures
            final(out)@ == old(out)@ + settings_indexes(self@),
    {
        let ghost before_ix = out@;
        if let Some(v) = &self.shared_mesg_indexes {
            out.push(FileCreateSetting::SharedMesgNindexes(v.len() as u32));
            assert(out@ =~= before_ix + index_settings(v@).take(1));
            let mut i: usize = 0;
            while i < v.len()
                invariant
                    i <= v@.len(),
                    v@.len() <= u32::MAX,
                    out@ == before_ix + index_settings(v@).take(i + 1),
                decreases v@.len() - i,
            {
                out.push(FileCreateSetting::SharedMesgIndex(i as u32, v[i].message_types.bits(), v[i].min_message_size));
                assert(index_settings(v@).take(i + 2) =~= index_settings(v@).take(i + 1).push(
                    FileCreateSetting::SharedMesgIndex(i as u32, v@[i as int].message_types.spec_bits(), v@[i as int].min_message_size),
                ));
                i = i + 1;
            }
            assert(index_settings(v@).take(i + 1) =~= index_settings(v@));
        } else {
            assert(out@ =~= before_ix + settings_indexes(self@));
        }
    }

    fn push_tail(&self, out: &mut Vec<FileCreateSetting>)
        ensures
            final(out)@ == old(out)@ + settings_tail(self@),
    {
        let ghost o = out@;
        if let Some(v) = self.file_space_page_size {
            out.push(FileCreateSetting::FileSpacePageSize(v));
        }
        let ghost o1 = out@;
        assert(o1 =~= o + opt_setting(self@.file_space_page_size, |v: u64| FileCreateSetting::FileSpacePageSize(v)));
        if let Some(v) = self.file_space_strategy {
            let (c, p, t) = v.to_raw();
            out.push(FileCreateSetting::FileSpaceStrategy(c, p, t));
        }
        assert(out@ =~= o + settings_tail(self@));
    }

    /// The settings to apply to a new file creation property list, in order.
    pub fn finish(&self) -> (r: Vec<FileCreateSetting>)
        requires
            self@.shared_mesg_indexes matches Some(v) ==> v.len() <= u32::MAX,
        ensures
            r@ == builder_settings(self@),
    {
        let mut out: Vec<FileCreateSetting> = Vec::new();
        self.push_head(&mut out);
        self.push_indexes(&mut out);
        self.push_tail(&mut out);
        assert(out@ =~= builder_settings(self@));
        out
    }
}

/// The settings of a builder holding every property read, when every read
/// succeeded.
pub open spec fn builder_of_reads(q: FileCreateReads) -> Option<FileCreateBuilderView> {
    match (q.userblock, q.sym_k, q.istore_k, q.shared_mesg_phase_change, q.shared_mesg_indexes, q.file_space_page_size, q.file_space_strategy) {
        (Ok(ub), Ok(sk), Ok(ik), Ok(pc), Ok(ix), Ok(ps), Ok(st)) => Some(FileCreateBuilderView {
            userblock: Some(ub),
            sym_k: Some(SymbolTableInfo { tree_rank: sk.0, node_size: sk.1 }),
            istore_k: Some(ik),
            shared_mesg_phase_change: Some(PhaseChangeInfo { max_list: pc.0, min_btree: pc.1 }),
            shared_mesg_indexes: Some(Seq::new(ix@.len(), |i: int| spec_index_of(ix@[i].0, ix@[i].1))),
            file_space_page_size: Some(ps),
            file_space_strategy: Some(spec_strategy_of(st.0, st.1, st.2)),
        }),
        _ => None,
    }
}

/// The error of the first property of a file creation property list, in the
/// order the builder reads them, that could not be read.
pub open spec fn first_read_error(q: FileCreateReads) -> ErrorView {
    if q.userblock is Err {
        q.userblock->Err_0@
    } else if q.sym_k is Err {
        q.sym_k->Err_0@
    } else if q.istore_k is Err {
        q.istore_k->Err_0@
    } else if q.shared_mesg_phase_change is Err {
        q.shared_mesg_phase_change->Err_0@
    } else if q.shared_mesg_indexes is Err {
        q.shared_mesg_indexes->Err_0@
    } else if q.file_space_page_size is Err {
        q.file_space_page_size->Err_0@
    } else {
        q.file_space_strategy->Err_0@
    }
}

/// The library's free-space strategy codes: free-space managers with
/// aggregators 0, paged 1, aggregators only 2, none 3; a manager keeps its
/// persistence flag (1 for persistent) and threshold, the others carry
/// neither. Reading a code gives the strategy with that code, and a code that
/// names none reads as no strategy.
pub proof fn strategy_codes_law(code: i32, persist: u8, threshold: u64, paged: bool, keep: bool)
    ensures
        spec_strategy_code(FileSpaceStrategy::FreeSpaceManager { paged, persist: keep, threshold })
            == (if paged { 1i32 } else { 0i32 }, if keep { 1u8 } else { 0u8 }, threshold),
        spec_strategy_code(FileSpaceStrategy::PageAggregation) == (2i32, 0u8, 0u64),
        spec_strategy_code(FileSpaceStrategy::NoStrategy) == (3i32, 0u8, 0u64),
        code == 0 ==> spec_strategy_of(code, persist, threshold)
            == (FileSpaceStrategy::FreeSpaceManager { paged: false, persist: persist != 0, threshold }),
        code == 1 ==> spec_strategy_of(code, persist, threshold)
            == (FileSpaceStrategy::FreeSpaceManager { paged: true, persist: persist != 0, threshold }),
        code == 2 ==> spec_strategy_of(code, persist, threshold) == FileSpaceStrategy::PageAggregation,
        !(0 <= code <= 2) ==> spec_strategy_of(code, persist, threshold) == FileSpaceStrategy::NoStrategy,
{
}

} // verus!

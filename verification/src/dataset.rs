//! Datasets: what their dataspace and property lists say of their shape and
//! storage, how the chunking of a new dataset is chosen and checked, and the
//! filters skipped for a chunk.

use vstd::prelude::*;
use crate::dataset_access::DatasetAccess;
use crate::container::{list_text, push_list};
use crate::dataset_create::{spec_chunk_of, spec_layout_of, DatasetCreate, Layout};
use crate::dataspace::{extents_text, spec_maxdims, spec_shape, Dataspace, Extent, Extents, ExtentsView};
use crate::error::{Error, ErrorView};
use crate::file_access::read_or;
use crate::filter::{spec_read_entry, Filter};
use crate::space::shape_size;
use crate::text::{dec_nat, push_str, push_usize, string_of};

verus! {

/// Chunk size in KB used when filters are enabled and no chunk size is
/// given (the same value that netcdf uses by default).
pub const DEFAULT_CHUNK_SIZE_KB: usize = 4096;

/// How a new dataset is chunked.
#[derive(Clone, Debug, PartialEq, Eq)]
pub enum Chunk {
    /// The exact chunk shape.
    Exact(Vec<usize>),
    /// A chunk shape of at least this many KB.
    MinKB(usize),
    /// Not chunked.
    NoChunk,
}

impl Default for Chunk {
    fn default() -> (r: Self)
        ensures
            r is NoChunk,
    {
        Chunk::NoChunk
    }
}

/// Abstract value of [`Chunk`].
pub enum ChunkView {
    Exact(Seq<usize>),
    MinKB(usize),
    NoChunk,
}

impl View for Chunk {
    type V = ChunkView;

    open spec fn view(&self) -> ChunkView {
        match self {
            Chunk::Exact(v) => ChunkView::Exact(v@),
            Chunk::MinKB(k) => ChunkView::MinKB(*k),
            Chunk::NoChunk => ChunkView::NoChunk,
        }
    }
}

/// The number of axes of some extents.
pub open spec fn ext_ndim(e: ExtentsView) -> nat {
    match e {
        ExtentsView::Simple(v) => v.len(),
        _ => 0,
    }
}

/// Some axis of the extents can grow without bound.
pub open spec fn ext_resizable(e: ExtentsView) -> bool {
    match e {
        ExtentsView::Simple(v) => exists|k: int| 0 <= k < v.len() && (#[trigger] v[k]).max is None,
        _ => false,
    }
}

/// The extents hold at least one element.
pub open spec fn ext_nonempty(e: ExtentsView) -> bool {
    match e {
        ExtentsView::Null => false,
        ExtentsView::Scalar => true,
        ExtentsView::Simple(v) => forall|k: int| 0 <= k < v.len() ==> (#[trigger] v[k]).dim > 0,
    }
}

/// The chunking that applies to a new dataset: the one asked for, or, where
/// none was asked for, chunks of [`DEFAULT_CHUNK_SIZE_KB`] when chunking is
/// required (filters, or an axis that can grow) and allowed (some axes, and
/// data or room to grow), else none. Leaving a resizable dataset, or one
/// with filters, unchunked is an error.
pub open spec fn spec_select_chunk(chunk: Option<ChunkView>, has_filters: bool, e: ExtentsView) -> Result<ChunkView, Seq<char>> {
    let required = has_filters || ext_resizable(e);
    let allowed = ext_ndim(e) > 0 && (ext_nonempty(e) || ext_resizable(e));
    let c = match chunk {
        Some(c) => c,
        None => if required && allowed {
            ChunkView::MinKB(DEFAULT_CHUNK_SIZE_KB)
        } else {
            ChunkView::NoChunk
        },
    };
    match c {
        ChunkView::NoChunk => if ext_resizable(e) {
            Err("Chunking required for resizable datasets"@)
        } else if has_filters {
            Err("Chunking required when filters are present"@)
        } else {
            Ok(ChunkView::NoChunk)
        },
        _ => Ok(c),
    }
}

/// Whether a chunk shape fits the extents: some axes, one positive size per
/// axis, and none above the current size of an axis with a maximum; or the
/// message of the first check it fails.
pub open spec fn spec_check_chunk_shape(chunk: Seq<usize>, e: ExtentsView) -> Result<(), Seq<char>> {
    let ndim = ext_ndim(e);
    if ndim == 0 {
        Err("Chunking cannot be enabled for 0-dim datasets"@)
    } else if ndim != chunk.len() {
        Err("Expected chunk ndim "@ + dec_nat(ndim) + ", got "@ + dec_nat(chunk.len()))
    } else if exists|k: int| 0 <= k < chunk.len() && #[trigger] chunk[k] == 0 {
        Err("All chunk dimensions must be positive, got "@ + list_text(chunk))
    } else if exists|k: int|
        0 <= k < chunk.len() && (#[trigger] spec_maxdims(e)[k]) is Some && chunk[k] > spec_shape(e)[k] {
        Err("Chunk dimensions ("@ + list_text(chunk) + ") exceed data shape ("@ + extents_text(e) + ")"@)
    } else {
        Ok(())
    }
}

fn extents_resizable(e: &Extents) -> (r: bool)
    ensures
        r == ext_resizable(e@),
{
    match e {
        Extents::Simple(v) => {
            let mut i: usize = 0;
            while i < v.len()
                invariant
                    i <= v@.len(),
                    e@ == ExtentsView::Simple(v@),
                    forall|k: int| 0 <= k < i ==> (#[trigger] v@[k]).max is Some,
                decreases v@.len() - i,
            {
                if v[i].max.is_none() {
                    assert(v@[i as int].max is None);
                    return true;
                }
                i = i + 1;
            }
            false
        },
        _ => false,
    }
}

fn extents_nonempty(e: &Extents) -> (r: bool)
    ensures
        r == ext_nonempty(e@),
{
    match e {
        Extents::Null => false,
        Extents::Scalar => true,
        Extents::Simple(v) => {
            let mut i: usize = 0;
            while i < v.len()
                invariant
                    i <= v@.len(),
                    e@ == ExtentsView::Simple(v@),
                    forall|k: int| 0 <= k < i ==> (#[trigger] v@[k]).dim > 0,
                decreases v@.len() - i,
            {
                if v[i].dim == 0 {
                    assert(v@[i as int].dim == 0);
                    return false;
                }
                i = i + 1;
            }
            true
        },
    }
}

fn extents_ndim(e: &Extents) -> (r: usize)
    ensures
        r == ext_ndim(e@),
{
    match e {
        Extents::Simple(v) => v.len(),
        _ => 0,
    }
}

fn copy_chunk(c: &Chunk) -> (r: Chunk)
    ensures
        r@ == c@,
{
    match c {
        Chunk::Exact(v) => Chunk::Exact(v.clone()),
        Chunk::MinKB(k) => Chunk::MinKB(*k),
        Chunk::NoChunk => Chunk::NoChunk,
    }
}

/// The chunking that applies to a new dataset with the given extents, from
/// the chunking asked for (if any) and whether filters are present.
pub fn select_chunk(chunk: Option<&Chunk>, has_filters: bool, extents: &Extents) -> (r: Result<Chunk, Error>)
    ensures
        match (r, spec_select_chunk(
            match chunk {
                Some(c) => Some(c@),
                None => None,
            },
            has_filters,
            extents@,
        )) {
            (Ok(c), Ok(d)) => c@ == d,
            (Err(e), Err(m)) => e@ == ErrorView::Internal(m),
            _ => false,
        },
{
    let resizable = extents_resizable(extents);
    let required = has_filters || resizable;
    let c = match chunk {
        Some(c) => copy_chunk(c),
        None => {
            let allowed = extents_ndim(extents) > 0 && (extents_nonempty(extents) || resizable);
            if required && allowed {
                Chunk::MinKB(DEFAULT_CHUNK_SIZE_KB)
            } else {
                Chunk::NoChunk
            }
        },
    };
    match c {
        Chunk::NoChunk => {
            if resizable {
                Err(Error::Internal(string_of("Chunking required for resizable datasets")))
            } else if has_filters {
                Err(Error::Internal(string_of("Chunking required when filters are present")))
            } else {
                Ok(Chunk::NoChunk)
            }
        },
        other => Ok(other),
    }
}

/// Checks that a chunk shape fits the extents of a new dataset.
pub fn check_chunk_shape(chunk: &[usize], extents: &Extents) -> (r: Result<(), Error>)
    ensures
        match (r, spec_check_chunk_shape(chunk@, extents@)) {
            (Ok(_), Ok(_)) => true,
            (Err(e), Err(m)) => e@ == ErrorView::Internal(m),
            _ => false,
        },
{
    let ndim = extents_ndim(extents);
    if ndim == 0 {
        return Err(Error::Internal(string_of("Chunking cannot be enabled for 0-dim datasets")));
    }
    if ndim != chunk.len() {
        let mut s = string_of("Expected chunk ndim ");
        push_usize(&mut s, ndim);
        push_str(&mut s, ", got ");
        push_usize(&mut s, chunk.len());
        return Err(Error::Internal(s));
    }
    let v: &Vec<Extent> = match extents {
        Extents::Simple(v) => v,
        _ => {
            return Err(Error::Internal(string_of("Chunking cannot be enabled for 0-dim datasets")));
        },
    };
    let mut k: usize = 0;
    while k < chunk.len()
        invariant
            k <= chunk@.len(),
            chunk@.len() == ndim == v@.len(),
            extents@ == ExtentsView::Simple(v@),
            forall|i: int| 0 <= i < k ==> #[trigger] chunk@[i] != 0,
        decreases chunk@.len() - k,
    {
        if chunk[k] == 0 {
            assert(chunk@[k as int] == 0);
            let mut s = string_of("All chunk dimensions must be positive, got ");
            push_list(&mut s, chunk);
            return Err(Error::Internal(s));
        }
        k = k + 1;
    }
    let mut k: usize = 0;
    while k < chunk.len()
        invariant
            k <= chunk@.len(),
            chunk@.len() == ndim == v@.len(),
            extents@ == ExtentsView::Simple(v@),
            forall|i: int| 0 <= i < chunk@.len() ==> #[trigger] chunk@[i] != 0,
            forall|i: int| 0 <= i < k ==> !((#[trigger] spec_maxdims(extents@)[i]) is Some && chunk@[i] > spec_shape(extents@)[i]),
        decreases chunk@.len() - k,
    {
        if v[k].max.is_some() && chunk[k] > v[k].dim {
            assert(spec_maxdims(extents@)[k as int] is Some && chunk@[k as int] > spec_shape(extents@)[k as int]);
            let mut s = string_of("Chunk dimensions (");
            push_list(&mut s, chunk);
            push_str(&mut s, ") exceed data shape (");
            let e = extents.to_string();
            push_str(&mut s, e.as_str());
            push_str(&mut s, ")");
            return Err(Error::Internal(s));
        }
        k = k + 1;
    }
    Ok(())
}

/// Information about one chunk of a chunked dataset.
#[derive(Clone, Debug, PartialEq, Eq)]
pub struct ChunkInfo {
    /// Logical position of the chunk's first element along each axis.
    pub offset: Vec<u64>,
    /// Which filters of the pipeline were skipped for the chunk: bit `i`
    /// set skips the filter at position `i` (0 applies all filters).
    pub filter_mask: u32,
    /// Address of the chunk in the file.
    pub addr: u64,
    /// Size of the chunk in bytes.
    pub size: u64,
}

/// The filter at position `i` is skipped under the mask.
pub open spec fn mask_skips(mask: u32, i: nat) -> bool {
    mask & (1u32 << (i as u32)) != 0
}

/// The positions below `n` whose filters the mask skips, in increasing
/// order.
pub open spec fn skipped_positions(mask: u32, n: nat) -> Seq<usize>
    decreases n,
{
    if n == 0 {
        Seq::empty()
    } else if mask_skips(mask, (n - 1) as nat) {
        skipped_positions(mask, (n - 1) as nat).push((n - 1) as usize)
    } else {
        skipped_positions(mask, (n - 1) as nat)
    }
}

impl ChunkInfo {
    /// Positions in the pipeline of the filters that were skipped for the
    /// chunk, in increasing order.
    pub fn disabled_filters(&self) -> (r: Vec<usize>)
        ensures
            r@ == skipped_positions(self.filter_mask, 32),
    {
        let mut out: Vec<usize> = Vec::new();
        let mut i: u32 = 0;
        while i < 32
            invariant
                i <= 32,
                out@ == skipped_positions(self.filter_mask, i as nat),
            decreases 32 - i,
        {
            if self.filter_mask & (1u32 << i) != 0 {
                out.push(i as usize);
            }
            i = i + 1;
        }
        out
    }
}

/// What reading a dataset's dataspace and property lists gave.
pub struct DatasetReads {
    pub space: Result<Dataspace, Error>,
    pub dcpl: Result<DatasetCreate, Error>,
    pub dapl: Result<DatasetAccess, Error>,
}

/// A dataset, as its dataspace and property lists read.
pub struct Dataset {
    reads: DatasetReads,
}

/// The shape a dataspace read gives: none when it failed.
pub open spec fn read_shape(space: Result<Dataspace, Error>) -> Seq<usize> {
    match space {
        Ok(s) => spec_shape(s@),
        Err(_) => Seq::empty(),
    }
}

impl Dataset {
    /// The dataset whose dataspace and property lists read as `reads`.
    pub fn new(reads: DatasetReads) -> (r: Self)
        ensures
            r.reads() == reads,
    {
        Dataset { reads }
    }

    /// What reading the dataspace and property lists gave.
    pub closed spec fn reads(&self) -> DatasetReads {
        self.reads
    }

    /// The dataset's shape; no axes when the dataspace cannot be read.
    pub fn shape(&self) -> (r: Vec<usize>)
        ensures
            r@ == read_shape(self.reads().space),
    {
        match &self.reads.space {
            Ok(s) => s.shape(),
            Err(_) => Vec::new(),
        }
    }

    /// The number of axes; 0 when the dataspace cannot be read.
    pub fn ndim(&self) -> (r: usize)
        ensures
            r == read_shape(self.reads().space).len(),
    {
        match &self.reads.space {
            Ok(s) => s.ndim(),
            Err(_) => 0,
        }
    }

    /// The number of elements: the product of the sizes, 1 for a scalar.
    pub fn size(&self) -> (r: usize)
        requires
            crate::space::products_fit(read_shape(self.reads().space)),
        ensures
            r == if read_shape(self.reads().space).len() == 0 {
                1
            } else {
                shape_size(read_shape(self.reads().space))
            },
    {
        let s = self.shape();
        if s.len() == 0 {
            1
        } else {
            crate::space::size_of_dims(s.as_slice())
        }
    }

    /// Whether the dataset has no axes.
    pub fn is_scalar(&self) -> (r: bool)
        ensures
            r == (read_shape(self.reads().space).len() == 0),
    {
        self.ndim() == 0
    }

    /// Whether some axis can grow without bound; false when the dataspace
    /// cannot be read.
    pub fn is_resizable(&self) -> (r: bool)
        ensures
            r == match self.reads().space {
                Ok(s) => exists|i: int| 0 <= i < spec_maxdims(s@).len() && spec_maxdims(s@)[i] is None,
                Err(_) => false,
            },
    {
        match &self.reads.space {
            Ok(s) => s.is_resizable(),
            Err(_) => false,
        }
    }

    /// The dataset creation property list.
    pub fn dcpl(&self) -> (r: Result<&DatasetCreate, Error>)
        ensures
            match (r, self.reads().dcpl) {
                (Ok(a), Ok(b)) => *a == b,
                (Err(e), Err(g)) => e@ == g@,
                _ => false,
            },
    {
        match &self.reads.dcpl {
            Ok(pl) => Ok(pl),
            Err(e) => Err(e.duplicate()),
        }
    }

    /// The dataset access property list.
    pub fn dapl(&self) -> (r: Result<&DatasetAccess, Error>)
        ensures
            match (r, self.reads().dapl) {
                (Ok(a), Ok(b)) => *a == b,
                (Err(e), Err(g)) => e@ == g@,
                _ => false,
            },
    {
        match &self.reads.dapl {
            Ok(pl) => Ok(pl),
            Err(e) => Err(e.duplicate()),
        }
    }

    /// The storage layout; contiguous when it cannot be read.
    pub fn layout(&self) -> (r: Layout)
        ensures
            r == match self.reads().dcpl {
                Ok(pl) => read_or(pl.reads().layout, |c: i32| spec_layout_of(c), Layout::Contiguous),
                Err(_) => Layout::Contiguous,
            },
    {
        match &self.reads.dcpl {
            Ok(pl) => pl.layout(),
            Err(_) => Layout::Contiguous,
        }
    }

    /// Whether the dataset is chunked.
    pub fn is_chunked(&self) -> (r: bool)
        ensures
            r == match self.reads().dcpl {
                Ok(pl) => read_or(pl.reads().layout, |c: i32| spec_layout_of(c), Layout::Contiguous) == Layout::Chunked,
                Err(_) => false,
            },
    {
        match self.layout() {
            Layout::Chunked => true,
            _ => false,
        }
    }

    /// The chunk shape of a chunked dataset; none otherwise, or when it
    /// cannot be read.
    pub fn chunk(&self) -> (r: Option<Vec<usize>>)
        ensures
            match self.reads().dcpl {
                Ok(pl) => match spec_chunk_of(pl.reads().layout, pl.reads().chunk) {
                    Ok(Some(b)) => r is Some && r->0@ == b,
                    _ => r is None,
                },
                Err(_) => r is None,
            },
    {
        match &self.reads.dcpl {
            Ok(pl) => pl.chunk(),
            Err(_) => None,
        }
    }

    /// The filters of the pipeline; none when they cannot be read.
    pub fn filters(&self) -> (r: Vec<Filter>)
        ensures
            match self.reads().dcpl {
                Ok(pl) => match pl.reads().filters {
                    Ok(b) => r@.len() == b@.len() && forall|i: int|
                        0 <= i < b@.len() ==> (#[trigger] r@[i])@ == spec_read_entry(b@[i]@),
                    Err(_) => r@.len() == 0,
                },
                Err(_) => r@.len() == 0,
            },
    {
        match &self.reads.dcpl {
            Ok(pl) => pl.filters(),
            Err(_) => Vec::new(),
        }
    }
}

/// An optional value, taken from a value or from an option (such as an
/// optional dataset name).
pub struct Maybe<T>(Option<T>);

impl<T> Maybe<T> {
    /// The option held.
    pub closed spec fn spec_option(&self) -> Option<T> {
        self.0
    }

    /// The option held, taken out.
    pub fn into_option(self) -> (r: Option<T>)
        ensures
            r == self.spec_option(),
    {
        self.0
    }

    /// The option held.
    pub fn as_option(&self) -> (r: &Option<T>)
        ensures
            *r == self.spec_option(),
    {
        &self.0
    }
}

impl<T> From<T> for Maybe<T> {
    fn from(v: T) -> (r: Self) {
        Maybe(Some(v))
    }
}

impl<T> vstd::std_specs::convert::FromSpecImpl<T> for Maybe<T> {
    open spec fn obeys_from_spec() -> bool {
        true
    }

    closed spec fn from_spec(v: T) -> Self {
        Maybe(Some(v))
    }
}

impl<T> From<Option<T>> for Maybe<T> {
    fn from(v: Option<T>) -> (r: Self) {
        Maybe(v)
    }
}

impl<T> vstd::std_specs::convert::FromSpecImpl<Option<T>> for Maybe<T> {
    open spec fn obeys_from_spec() -> bool {
        true
    }

    closed spec fn from_spec(v: Option<T>) -> Self {
        Maybe(v)
    }
}

/// A value made into a [`Maybe`] holds it; an option made into one is held
/// as it is.
pub proof fn maybe_from_holds<T>(v: T, o: Option<T>)
    ensures
        <Maybe<T> as vstd::std_specs::convert::FromSpec<T>>::from_spec(v).spec_option() == Some(v),
        <Maybe<T> as vstd::std_specs::convert::FromSpec<Option<T>>>::from_spec(o).spec_option() == o,
{
}

} // verus!

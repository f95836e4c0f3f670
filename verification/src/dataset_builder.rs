//! Chunking of new datasets: whether a dataset is chunked, and with which
//! chunk shape, from the builder's settings and the dataset's shape.

use vstd::prelude::*;
use crate::container::{list_text, push_list};
use crate::dataset_create::FillTime;
use crate::error::{Error, ErrorView};
use crate::filters::{
    FilterInfo, Filters, FiltersView, PipelineFilter, PipelineFilterView, TypeClass, no_filters,
    spec_has_filters, spec_to_dcpl,
};
use crate::handle::Handle;
use crate::space::Dimension;
use crate::space::{products_fit, shape_product, shape_size, size_of_dims};
use crate::text::{dec_nat, push_str, push_usize, string_of};

verus! {

/// Chunks are not made larger than this many bytes.
pub const CHUNK_MAX: usize = 1048576;

/// The sum of the first `n` sizes.
pub open spec fn seq_sum(c: Seq<usize>, n: nat) -> int
    decreases n,
{
    if n == 0 {
        0
    } else {
        seq_sum(c, (n - 1) as nat) + c[n - 1]
    }
}

/// Every size is at least 1.
pub open spec fn all_pos(c: Seq<usize>) -> bool {
    forall|k: int| 0 <= k < c.len() ==> #[trigger] c[k] >= 1
}

/// The number of elements of a chunk.
pub open spec fn chunk_elems(c: Seq<usize>) -> int {
    shape_product(c, c.len())
}

/// The halving stops at a chunk of fewer bytes than both `limit` and
/// [`CHUNK_MAX`], or at a chunk of one element.
pub open spec fn halving_done(c: Seq<usize>, typesize: nat, limit: nat) -> bool {
    (chunk_elems(c) * typesize < limit && chunk_elems(c) * typesize < CHUNK_MAX) || chunk_elems(c) == 1
}

/// `c` with each of its first `j` sizes halved, rounding up.
pub open spec fn halve_prefix(c: Seq<usize>, j: int) -> Seq<usize> {
    Seq::new(c.len(), |k: int| if k < j { ((c[k] + 1) / 2) as usize } else { c[k] })
}

/// Within a round that starts at `c` and halves the axes in order, the
/// first step at or after `j` at which the halving stops.
pub open spec fn first_stop(c: Seq<usize>, j: nat, typesize: nat, limit: nat) -> Option<nat>
    decreases c.len() - j,
{
    if j >= c.len() {
        None
    } else if halving_done(halve_prefix(c, j as int), typesize, limit) {
        Some(j)
    } else {
        first_stop(c, j + 1, typesize, limit)
    }
}

/// The chunk that halving rounds starting at `c` end with: each round halves
/// every axis in turn, and stops as soon as the chunk is small enough.
pub open spec fn halving_run(c: Seq<usize>, typesize: nat, limit: nat) -> Seq<usize>
    decreases seq_sum(c, c.len()),
    when all_pos(c) && c.len() > 0
{
    match first_stop(c, 0, typesize, limit) {
        Some(m) => halve_prefix(c, m as int),
        None => {
            proof {
                lemma_round_shrinks(c, typesize, limit);
            }
            halving_run(halve_prefix(c, c.len() as int), typesize, limit)
        },
    }
}

/// The chunk shape inferred for a dataset shape and an element size: none
/// for a scalar, a single element for an empty dataset, and otherwise the
/// shape halved axis after axis until a chunk is small enough.
pub open spec fn spec_infer_chunk(shape: Seq<usize>, typesize: nat, limit: nat) -> Seq<usize> {
    if shape.len() == 0 {
        Seq::empty()
    } else if shape_size(shape) == 0 {
        seq![1usize]
    } else {
        halving_run(shape, typesize, limit)
    }
}

proof fn lemma_prod_pos(c: Seq<usize>, n: nat)
    requires
        n <= c.len(),
        all_pos(c),
    ensures
        shape_product(c, n) >= 1,
    decreases n,
{
    if n > 0 {
        lemma_prod_pos(c, (n - 1) as nat);
        let p = shape_product(c, (n - 1) as nat);
        let x = c[n - 1] as int;
        assert(p * x >= 1) by (nonlinear_arith)
            requires
                p >= 1,
                x >= 1,
        ;
    }
}

proof fn lemma_prod_le(a: Seq<usize>, b: Seq<usize>, n: nat)
    requires
        a.len() == b.len(),
        n <= a.len(),
        all_pos(a),
        forall|k: int| 0 <= k < a.len() ==> #[trigger] a[k] <= b[k],
    ensures
        shape_product(a, n) <= shape_product(b, n),
    decreases n,
{
    if n > 0 {
        lemma_prod_le(a, b, (n - 1) as nat);
        lemma_prod_pos(a, (n - 1) as nat);
        let p = shape_product(a, (n - 1) as nat);
        let q = shape_product(b, (n - 1) as nat);
        let x = a[n - 1] as int;
        let y = b[n - 1] as int;
        assert(p * x <= q * y) by (nonlinear_arith)
            requires
                1 <= p <= q,
                1 <= x <= y,
        ;
    }
}

proof fn lemma_prod_one_witness(c: Seq<usize>, n: nat)
    requires
        n <= c.len(),
        all_pos(c),
        shape_product(c, n) != 1,
    ensures
        exists|k: int| 0 <= k < n && #[trigger] c[k] > 1,
    decreases n,
{
    if n > 0 {
        if c[n - 1] > 1 {
            assert(c[n - 1] > 1);
        } else {
            assert(c[n - 1] == 1);
            assert(shape_product(c, n) == shape_product(c, (n - 1) as nat));
            lemma_prod_one_witness(c, (n - 1) as nat);
        }
    }
}

proof fn lemma_prod_nonzero(c: Seq<usize>, n: nat)
    requires
        n <= c.len(),
        shape_product(c, n) != 0,
    ensures
        forall|k: int| 0 <= k < n ==> #[trigger] c[k] >= 1,
    decreases n,
{
    if n > 0 {
        let p = shape_product(c, (n - 1) as nat);
        let x = c[n - 1] as int;
        assert(p != 0 && x != 0) by (nonlinear_arith)
            requires
                p * x != 0,
        ;
        lemma_prod_nonzero(c, (n - 1) as nat);
    }
}

proof fn lemma_sum_nonneg(c: Seq<usize>, n: nat)
    requires
        n <= c.len(),
    ensures
        seq_sum(c, n) >= 0,
    decreases n,
{
    if n > 0 {
        lemma_sum_nonneg(c, (n - 1) as nat);
    }
}

proof fn lemma_sum_le(a: Seq<usize>, b: Seq<usize>, n: nat)
    requires
        a.len() == b.len(),
        n <= a.len(),
        forall|k: int| 0 <= k < a.len() ==> #[trigger] a[k] <= b[k],
    ensures
        seq_sum(a, n) <= seq_sum(b, n),
        (exists|k: int| 0 <= k < n && #[trigger] a[k] < b[k]) ==> seq_sum(a, n) < seq_sum(b, n),
    decreases n,
{
    if n > 0 {
        lemma_sum_le(a, b, (n - 1) as nat);
        if exists|k: int| 0 <= k < n && #[trigger] a[k] < b[k] {
            let k = choose|k: int| 0 <= k < n && #[trigger] a[k] < b[k];
            if k < n - 1 {
                assert(exists|k2: int| 0 <= k2 < n - 1 && #[trigger] a[k2] < b[k2]);
            }
        }
    }
}

/// A round of halvings in which the halving never stops keeps every size
/// positive and makes the chunk strictly smaller.
pub proof fn lemma_round_shrinks(c: Seq<usize>, typesize: nat, limit: nat)
    requires
        all_pos(c),
        c.len() > 0,
        first_stop(c, 0, typesize, limit) is None,
    ensures
        all_pos(halve_prefix(c, c.len() as int)),
        halve_prefix(c, c.len() as int).len() == c.len(),
        0 <= seq_sum(halve_prefix(c, c.len() as int), c.len()) < seq_sum(c, c.len()),
{
    let h = halve_prefix(c, c.len() as int);
    lemma_sum_nonneg(h, c.len());
    assert(halve_prefix(c, 0) =~= c);
    assert(!halving_done(c, typesize, limit));
    lemma_prod_one_witness(c, c.len());
    let k = choose|k: int| 0 <= k < c.len() && #[trigger] c[k] > 1;
    assert forall|i: int| 0 <= i < c.len() implies #[trigger] h[i] <= c[i] && h[i] >= 1 by {}
    assert(h[k] < c[k]);
    lemma_sum_le(h, c, c.len());
}

/// The chunk shape of a dataset of the given shape and element size: the
/// shape halved axis after axis, round after round, until a chunk has fewer
/// bytes than both `limit` and [`CHUNK_MAX`], or a single element. `limit`
/// is the byte size that the chunk is to stay under for this dataset.
pub fn infer_chunk_size(shape: &[usize], typesize: usize, limit: u64) -> (r: Vec<usize>)
    requires
        products_fit(shape@),
        shape_size(shape@) * typesize <= usize::MAX,
    ensures
        r@ == spec_infer_chunk(shape@, typesize as nat, limit as nat),
{
    let n = shape.len();
    if n == 0 {
        return Vec::new();
    }
    let total = size_of_dims(shape);
    if total == 0 {
        return vec![1];
    }
    proof {
        lemma_prod_nonzero(shape@, n as nat);
    }
    let mut chunks: Vec<usize> = Vec::new();
    let mut i: usize = 0;
    while i < n
        invariant
            n == shape@.len(),
            i <= n,
            chunks@ =~= shape@.subrange(0, i as int),
        decreases n - i,
    {
        chunks.push(shape[i]);
        i = i + 1;
    }
    assert(chunks@ =~= shape@);
    let ghost goal = halving_run(shape@, typesize as nat, limit as nat);
    loop
        invariant
            n == shape@.len() == chunks@.len(),
            n > 0,
            all_pos(chunks@),
            forall|k: int| 0 <= k < n ==> #[trigger] chunks@[k] <= shape@[k],
            products_fit(shape@),
            shape_size(shape@) == shape_product(shape@, n as nat),
            shape_size(shape@) * typesize <= usize::MAX,
            halving_run(chunks@, typesize as nat, limit as nat) == goal,
            goal == spec_infer_chunk(shape@, typesize as nat, limit as nat),
        decreases seq_sum(chunks@, n as nat),
    {
        let ghost c0 = chunks@;
        let mut j: usize = 0;
        while j < n
            invariant
                n == shape@.len() == chunks@.len() == c0.len(),
                n > 0,
                j <= n,
                all_pos(c0),
                all_pos(chunks@),
                chunks@ == halve_prefix(c0, j as int),
                forall|k: int| 0 <= k < n ==> #[trigger] chunks@[k] <= shape@[k],
                forall|k: int| 0 <= k < n ==> #[trigger] chunks@[k] <= c0[k],
                first_stop(c0, 0, typesize as nat, limit as nat) == first_stop(c0, j as nat, typesize as nat, limit as nat),
                halving_run(c0, typesize as nat, limit as nat) == goal,
                goal == spec_infer_chunk(shape@, typesize as nat, limit as nat),
                products_fit(shape@),
                shape_size(shape@) == shape_product(shape@, n as nat),
                shape_size(shape@) * typesize <= usize::MAX,
            decreases n - j,
        {
            proof {
                assert forall|k: nat| k <= chunks@.len() implies #[trigger] shape_product(chunks@, k) <= usize::MAX by {
                    lemma_prod_le(chunks@, shape@, k);
                    assert(shape_product(shape@, k) <= usize::MAX);
                }
                lemma_prod_le(chunks@, shape@, n as nat);
            }
            let size = size_of_dims(chunks.as_slice());
            proof {
                let s = size as int;
                let t = typesize as int;
                let tot = shape_size(shape@);
                assert(s * t <= tot * t) by (nonlinear_arith)
                    requires
                        0 <= s <= tot,
                        t >= 0,
                ;
            }
            let bytes = size * typesize;
            if ((bytes as u64) < limit && bytes < CHUNK_MAX) || size == 1 {
                proof {
                    assert(halving_done(chunks@, typesize as nat, limit as nat));
                    assert(first_stop(c0, j as nat, typesize as nat, limit as nat) == Some(j as nat));
                }
                return chunks;
            }
            let c = chunks[j];
            let half = c / 2 + c % 2;
            chunks.set(j, half);
            proof {
                assert(chunks@ =~= halve_prefix(c0, (j + 1) as int));
            }
            j = j + 1;
        }
        proof {
            assert(first_stop(c0, n as nat, typesize as nat, limit as nat) is None);
            lemma_round_shrinks(c0, typesize as nat, limit as nat);
            assert(halving_run(c0, typesize as nat, limit as nat) == halving_run(chunks@, typesize as nat, limit as nat));
        }
    }
}

/// How the builder chunks a new dataset.
#[derive(Clone, Debug, PartialEq, Eq)]
pub enum Chunk {
    /// Not chunked.
    NoChunk,
    /// Chunked with an inferred shape only where chunking is required (with
    /// filters, or for a resizable dataset).
    Auto,
    /// Chunked with an inferred shape.
    Infer,
    /// Chunked with the given shape.
    Manual(Vec<usize>),
}

/// Abstract value of [`Chunk`].
pub enum ChunkView {
    NoChunk,
    Auto,
    Infer,
    Manual(Seq<usize>),
}

impl View for Chunk {
    type V = ChunkView;

    open spec fn view(&self) -> ChunkView {
        match self {
            Chunk::NoChunk => ChunkView::NoChunk,
            Chunk::Auto => ChunkView::Auto,
            Chunk::Infer => ChunkView::Infer,
            Chunk::Manual(v) => ChunkView::Manual(v@),
        }
    }
}

/// What a new dataset's creation property list gets for its storage: the
/// chunk shape, if chunked, and the fill time set with it.
pub struct ChunkPlan {
    pub chunk: Option<Vec<usize>>,
    pub fill_time: Option<FillTime>,
}

/// The chunk shape is inferred from the dataset's shape: chunking is asked
/// for (or needed, with filters or a resizable dataset) without a shape.
pub open spec fn infers_chunk(chunk: ChunkView, has_filters: bool, resizable: bool) -> bool {
    chunk is Infer || (chunk is Auto && (has_filters || resizable))
}

/// The chunk shape that a setting asks for: the given one, or the one
/// inferred from the dataset's shape.
pub open spec fn spec_chunk_dims(chunk: ChunkView, shape: Seq<usize>, typesize: nat, limit: nat) -> Seq<usize> {
    match chunk {
        ChunkView::Manual(c) => c,
        _ => spec_infer_chunk(shape, typesize, limit),
    }
}

/// Whether a chunk shape fits a dataset shape: one positive size per axis,
/// none above the dataset's; or the message of the first check it fails.
pub open spec fn spec_check_chunk(dims: Seq<usize>, shape: Seq<usize>) -> Result<(), Seq<char>> {
    if dims.len() != shape.len() {
        Err("Invalid chunk ndim: expected "@ + dec_nat(shape.len()) + ", got "@ + dec_nat(dims.len()))
    } else if exists|k: int| 0 <= k < dims.len() && #[trigger] dims[k] == 0 {
        Err("Invalid chunk: "@ + list_text(dims) + " (all dimensions must be positive)"@)
    } else if exists|k: int| 0 <= k < dims.len() && #[trigger] dims[k] > shape[k] {
        Err("Invalid chunk: "@ + list_text(dims) + " (must not exceed data shape in any dimension)"@)
    } else {
        Ok(())
    }
}

/// The chunk shape that a builder's chunk setting, filters and resizability
/// give a dataset of the given shape and element size, or the message of
/// the error that stops its creation.
pub open spec fn spec_chunk_plan(
    chunk: ChunkView,
    has_filters: bool,
    resizable: bool,
    shape: Seq<usize>,
    typesize: nat,
    limit: nat,
) -> Result<Option<Seq<usize>>, Seq<char>> {
    if chunk is NoChunk {
        if has_filters {
            Err("Chunking must be enabled when filters are present"@)
        } else if resizable {
            Err("Chunking must be enabled for resizable datasets"@)
        } else {
            Ok(None)
        }
    } else if chunk is Auto && !has_filters && !resizable {
        Ok(None)
    } else if shape.len() == 0 {
        Err("Chunking cannot be enabled for scalar datasets"@)
    } else {
        let dims = spec_chunk_dims(chunk, shape, typesize, limit);
        match spec_check_chunk(dims, shape) {
            Ok(_) => Ok(Some(dims)),
            Err(m) => Err(m),
        }
    }
}

fn chunk_error(prefix: &str, dims: &[usize], suffix: &str) -> (r: Error)
    ensures
        r@ == ErrorView::Internal(prefix@ + list_text(dims@) + suffix@),
{
    let mut s = string_of(prefix);
    push_list(&mut s, dims);
    push_str(&mut s, suffix);
    Error::Internal(s)
}

/// Checks that a chunk shape fits a dataset shape.
pub fn check_chunk(dims: &[usize], shape: &[usize]) -> (r: Result<(), Error>)
    ensures
        match (r, spec_check_chunk(dims@, shape@)) {
            (Ok(_), Ok(_)) => true,
            (Err(e), Err(m)) => e@ == ErrorView::Internal(m),
            _ => false,
        },
{
    if dims.len() != shape.len() {
        let mut s = string_of("Invalid chunk ndim: expected ");
        push_usize(&mut s, shape.len());
        push_str(&mut s, ", got ");
        push_usize(&mut s, dims.len());
        return Err(Error::Internal(s));
    }
    let mut k: usize = 0;
    while k < dims.len()
        invariant
            k <= dims@.len(),
            dims@.len() == shape@.len(),
            forall|i: int| 0 <= i < k ==> #[trigger] dims@[i] != 0,
        decreases dims@.len() - k,
    {
        if dims[k] == 0 {
            assert(dims@[k as int] == 0);
            return Err(chunk_error("Invalid chunk: ", dims, " (all dimensions must be positive)"));
        }
        k = k + 1;
    }
    let mut k: usize = 0;
    while k < dims.len()
        invariant
            k <= dims@.len(),
            dims@.len() == shape@.len(),
            forall|i: int| 0 <= i < dims@.len() ==> #[trigger] dims@[i] != 0,
            forall|i: int| 0 <= i < k ==> #[trigger] dims@[i] <= shape@[i],
        decreases dims@.len() - k,
    {
        if dims[k] > shape[k] {
            assert(dims@[k as int] > shape@[k as int]);
            return Err(chunk_error("Invalid chunk: ", dims, " (must not exceed data shape in any dimension)"));
        }
        k = k + 1;
    }
    Ok(())
}

/// How a new dataset is stored: whether it is chunked, with which shape,
/// and that a chunked dataset writes fill values when space is allocated.
/// Filters and resizable datasets need chunking; scalar datasets cannot be
/// chunked; a chunk shape needs one positive size per axis, none above the
/// dataset's. `limit` is the byte size that an inferred chunk is to stay
/// under.
pub fn plan_chunking(
    chunk: &Chunk,
    has_filters: bool,
    resizable: bool,
    shape: &[usize],
    typesize: usize,
    limit: u64,
) -> (r: Result<ChunkPlan, Error>)
    requires
        infers_chunk(chunk@, has_filters, resizable) ==> products_fit(shape@) && shape_size(shape@) * typesize <= usize::MAX,
    ensures
        match (r, spec_chunk_plan(chunk@, has_filters, resizable, shape@, typesize as nat, limit as nat)) {
            (Ok(p), Ok(Some(d))) => p.chunk is Some && p.chunk->0@ == d && p.fill_time == Some(FillTime::Alloc),
            (Ok(p), Ok(None)) => p.chunk is None && p.fill_time is None,
            (Err(e), Err(m)) => e@ == ErrorView::Internal(m),
            _ => false,
        },
{
    match chunk {
        Chunk::NoChunk => {
            if has_filters {
                return Err(Error::Internal(string_of("Chunking must be enabled when filters are present")));
            }
            if resizable {
                return Err(Error::Internal(string_of("Chunking must be enabled for resizable datasets")));
            }
            return Ok(ChunkPlan { chunk: None, fill_time: None });
        },
        _ => {},
    }
    let auto_unchunked = match chunk {
        Chunk::Auto => !has_filters && !resizable,
        _ => false,
    };
    if auto_unchunked {
        return Ok(ChunkPlan { chunk: None, fill_time: None });
    }
    if shape.len() == 0 {
        return Err(Error::Internal(string_of("Chunking cannot be enabled for scalar datasets")));
    }
    let dims: Vec<usize> = match chunk {
        Chunk::Manual(c) => c.clone(),
        _ => infer_chunk_size(shape, typesize, limit),
    };
    match check_chunk(dims.as_slice(), shape) {
        Ok(()) => {},
        Err(e) => {
            return Err(e);
        },
    }
    Ok(ChunkPlan { chunk: Some(dims), fill_time: Some(FillTime::Alloc) })
}

proof fn lemma_halve_prefix_bounds(c: Seq<usize>, j: int)
    requires
        all_pos(c),
    ensures
        all_pos(halve_prefix(c, j)),
        halve_prefix(c, j).len() == c.len(),
        forall|k: int| 0 <= k < c.len() ==> #[trigger] halve_prefix(c, j)[k] <= c[k],
{
    let h = halve_prefix(c, j);
    assert forall|k: int| 0 <= k < c.len() implies #[trigger] h[k] >= 1 && h[k] <= c[k] by {}
}

proof fn lemma_first_stop_done(c: Seq<usize>, j: nat, typesize: nat, limit: nat)
    ensures
        first_stop(c, j, typesize, limit) matches Some(m) ==> m < c.len() && halving_done(halve_prefix(c, m as int), typesize, limit),
    decreases c.len() - j,
{
    if j < c.len() && !halving_done(halve_prefix(c, j as int), typesize, limit) {
        lemma_first_stop_done(c, j + 1, typesize, limit);
    }
}

/// What the halving ends with: a chunk of positive sizes, none above the
/// sizes it started from, small enough to stop at.
pub proof fn lemma_halving_run(c: Seq<usize>, typesize: nat, limit: nat)
    requires
        all_pos(c),
        c.len() > 0,
    ensures
        halving_run(c, typesize, limit).len() == c.len(),
        all_pos(halving_run(c, typesize, limit)),
        forall|k: int| 0 <= k < c.len() ==> #[trigger] halving_run(c, typesize, limit)[k] <= c[k],
        halving_done(halving_run(c, typesize, limit), typesize, limit),
    decreases seq_sum(c, c.len()),
{
    lemma_first_stop_done(c, 0, typesize, limit);
    match first_stop(c, 0, typesize, limit) {
        Some(m) => {
            lemma_halve_prefix_bounds(c, m as int);
        },
        None => {
            lemma_round_shrinks(c, typesize, limit);
            let h = halve_prefix(c, c.len() as int);
            lemma_halve_prefix_bounds(c, c.len() as int);
            lemma_halving_run(h, typesize, limit);
            assert forall|k: int| 0 <= k < c.len() implies #[trigger] halving_run(c, typesize, limit)[k] <= c[k] by {
                assert(halving_run(h, typesize, limit)[k] <= h[k]);
            }
        },
    }
}

/// An inferred chunk always fits a dataset that holds data: one positive
/// size per axis, none above the dataset's, and few enough bytes (or a
/// single element); so chunking with an inferred shape never fails there.
pub proof fn inferred_chunk_fits(shape: Seq<usize>, typesize: nat, limit: nat)
    requires
        shape.len() > 0,
        shape_size(shape) != 0,
    ensures
        spec_check_chunk(spec_infer_chunk(shape, typesize, limit), shape) is Ok,
        halving_done(spec_infer_chunk(shape, typesize, limit), typesize, limit),
{
    lemma_prod_nonzero(shape, shape.len());
    lemma_halving_run(shape, typesize, limit);
    let d = spec_infer_chunk(shape, typesize, limit);
    assert(!exists|k: int| 0 <= k < d.len() && #[trigger] d[k] == 0);
    assert(!exists|k: int| 0 <= k < d.len() && #[trigger] d[k] > shape[k]);
}

/// What the chunking plan of a new dataset is, whatever its shape: it stays
/// unchunked exactly when chunking is switched off or left automatic with
/// neither filters nor resizability; switching chunking off for a dataset
/// with filters or a resizable one is an error; and a chunk shape it plans
/// has one positive size per axis, none above the dataset's, and is the
/// requested shape when one was given.
pub proof fn chunk_plan_law(
    chunk: ChunkView,
    has_filters: bool,
    resizable: bool,
    shape: Seq<usize>,
    typesize: nat,
    limit: nat,
)
    ensures
        ({
            let p = spec_chunk_plan(chunk, has_filters, resizable, shape, typesize, limit);
            &&& p matches Ok(c) ==> (c is None <==> ((chunk is NoChunk || chunk is Auto) && !has_filters && !resizable))
            &&& (chunk is NoChunk && (has_filters || resizable)) ==> p is Err
            &&& (!(chunk is NoChunk) && (has_filters || resizable) && p is Ok) ==> p->Ok_0 is Some
            &&& p matches Ok(Some(d)) ==> {
                &&& d.len() == shape.len()
                &&& shape.len() > 0
                &&& forall|k: int| 0 <= k < d.len() ==> 1 <= #[trigger] d[k] <= shape[k]
                &&& chunk matches ChunkView::Manual(c) ==> d == c
            }
        }),
{
    let p = spec_chunk_plan(chunk, has_filters, resizable, shape, typesize, limit);
    if let Ok(Some(d)) = p {
        assert(spec_check_chunk(d, shape) is Ok);
        assert forall|k: int| 0 <= k < d.len() implies 1 <= #[trigger] d[k] <= shape[k] by {
            if d[k] == 0 {
                assert(exists|j: int| 0 <= j < d.len() && #[trigger] d[j] == 0);
            }
            if d[k] > shape[k] {
                assert(exists|j: int| 0 <= j < d.len() && #[trigger] d[j] > shape[j]);
            }
        }
    }
}

/// What a dataset builder holds: its filters, chunking, the handle of the
/// container it creates in (or the error binding it gave), whether it tracks
/// modification times, whether the dataset is resizable, and its fill value.
pub struct DatasetBuilderView<T> {
    pub filters: FiltersView,
    pub chunk: ChunkView,
    pub parent: Result<i64, ErrorView>,
    pub track_times: bool,
    pub resizable: bool,
    pub fill_value: Option<T>,
}

/// A builder of datasets of element type `T` in one container.
pub struct DatasetBuilder<T> {
    filters: Filters,
    chunk: Chunk,
    parent: Result<Handle, Error>,
    track_times: bool,
    resizable: bool,
    fill_value: Option<T>,
}

impl<T> View for DatasetBuilder<T> {
    type V = DatasetBuilderView<T>;

    closed spec fn view(&self) -> DatasetBuilderView<T> {
        DatasetBuilderView {
            filters: self.filters@,
            chunk: self.chunk@,
            parent: match self.parent {
                Ok(h) => Ok(h.spec_id()),
                Err(e) => Err(e@),
            },
            track_times: self.track_times,
            resizable: self.resizable,
            fill_value: self.fill_value,
        }
    }
}

/// What a builder's settings give a new dataset's creation property list:
/// the filter pipeline, whether modification times are tracked, and the
/// storage plan.
pub struct DcplPlan {
    pub pipeline: Vec<PipelineFilter>,
    pub track_times: bool,
    pub storage: ChunkPlan,
}

/// What `make_dcpl` gives: the filters' pipeline for the datatype's class
/// (or its error), then the chunking (or its error).
pub open spec fn spec_make_dcpl<T>(
    b: DatasetBuilderView<T>,
    class: TypeClass,
    infos: Seq<(i32, FilterInfo)>,
    shape: Seq<usize>,
    typesize: nat,
    limit: nat,
) -> Result<(Seq<PipelineFilterView>, bool, Option<Seq<usize>>), Seq<char>> {
    match spec_to_dcpl(b.filters, class, infos) {
        Err(m) => Err(m),
        Ok(p) => match spec_chunk_plan(b.chunk, spec_has_filters(b.filters), b.resizable, shape, typesize, limit) {
            Err(m) => Err(m),
            Ok(c) => Ok((p, b.track_times, c)),
        },
    }
}

impl<T> DatasetBuilder<T> {
    /// A builder for datasets in the container whose handle binding gave
    /// `parent`: no filter, chunking only where required, no time tracking,
    /// not resizable, no fill value.
    pub fn new(parent: Result<Handle, Error>) -> (r: Self)
        ensures
            r@.filters == no_filters(),
            r@.chunk == ChunkView::Auto,
            r@.parent == (match parent {
                Ok(h) => Ok::<i64, ErrorView>(h.spec_id()),
                Err(e) => Err(e@),
            }),
            !r@.track_times,
            !r@.resizable,
            r@.fill_value is None,
    {
        DatasetBuilder {
            filters: Filters::default(),
            chunk: Chunk::Auto,
            parent,
            track_times: false,
            resizable: false,
            fill_value: None,
        }
    }

    /// Sets the fill value.
    pub fn fill_value(&mut self, fill_value: T) -> (r: &mut Self)
        ensures
            r@ == (DatasetBuilderView { fill_value: Some(fill_value), ..old(self)@ }),
            final(self)@ == final(r)@,
    {
        self.fill_value = Some(fill_value);
        self
    }

    /// Disables chunking.
    pub fn no_chunk(&mut self) -> (r: &mut Self)
        ensures
            r@ == (DatasetBuilderView { chunk: ChunkView::NoChunk, ..old(self)@ }),
            final(self)@ == final(r)@,
    {
        self.chunk = Chunk::NoChunk;
        self
    }

    /// Chunks with an inferred shape only where chunking is required (the
    /// default).
    pub fn chunk_auto(&mut self) -> (r: &mut Self)
        ensures
            r@ == (DatasetBuilderView { chunk: ChunkView::Auto, ..old(self)@ }),
            final(self)@ == final(r)@,
    {
        self.chunk = Chunk::Auto;
        self
    }

    /// Chunks with an inferred shape.
    pub fn chunk_infer(&mut self) -> (r: &mut Self)
        ensures
            r@ == (DatasetBuilderView { chunk: ChunkView::Infer, ..old(self)@ }),
            final(self)@ == final(r)@,
    {
        self.chunk = Chunk::Infer;
        self
    }

    /// Chunks with the given shape.
    pub fn chunk<D: Dimension>(&mut self, chunk: D) -> (r: &mut Self)
        ensures
            r@ == (DatasetBuilderView { chunk: ChunkView::Manual(chunk.spec_dims()), ..old(self)@ }),
            final(self)@ == final(r)@,
    {
        self.chunk = Chunk::Manual(chunk.dims());
        self
    }

    /// Sets the filters.
    pub fn filters(&mut self, filters: &Filters) -> (r: &mut Self)
        ensures
            r@ == (DatasetBuilderView { filters: filters@, ..old(self)@ }),
            final(self)@ == final(r)@,
    {
        self.filters = *filters;
        self
    }

    /// Turns tracking of modification times on or off.
    pub fn track_times(&mut self, track_times: bool) -> (r: &mut Self)
        ensures
            r@ == (DatasetBuilderView { track_times, ..old(self)@ }),
            final(self)@ == final(r)@,
    {
        self.track_times = track_times;
        self
    }

    /// Makes the dataset resizable along every axis (which needs chunking).
    pub fn resizable(&mut self, resizable: bool) -> (r: &mut Self)
        ensures
            r@ == (DatasetBuilderView { resizable, ..old(self)@ }),
            final(self)@ == final(r)@,
    {
        self.resizable = resizable;
        self
    }

    /// Enables gzip compression with the given level (0 to 9).
    pub fn gzip(&mut self, level: u8) -> (r: &mut Self)
        ensures
            r@ == (DatasetBuilderView { filters: FiltersView { gzip: Some(level), ..old(self)@.filters }, ..old(self)@ }),
            final(self)@ == final(r)@,
    {
        self.filters.gzip(level);
        self
    }

    /// Enables szip compression: nearest-neighbour coding when `nn` holds,
    /// entropy coding otherwise, with `level` pixels per block.
    pub fn szip(&mut self, nn: bool, level: u8) -> (r: &mut Self)
        ensures
            r@ == (DatasetBuilderView { filters: FiltersView { szip: Some((nn, level)), ..old(self)@.filters }, ..old(self)@ }),
            final(self)@ == final(r)@,
    {
        self.filters.szip(nn, level);
        self
    }

    /// Turns the shuffle filter on or off.
    pub fn shuffle(&mut self, shuffle: bool) -> (r: &mut Self)
        ensures
            r@ == (DatasetBuilderView { filters: FiltersView { shuffle, ..old(self)@.filters }, ..old(self)@ }),
            final(self)@ == final(r)@,
    {
        self.filters.shuffle(shuffle);
        self
    }

    /// Turns the fletcher32 checksum on or off.
    pub fn fletcher32(&mut self, fletcher32: bool) -> (r: &mut Self)
        ensures
            r@ == (DatasetBuilderView { filters: FiltersView { fletcher32, ..old(self)@.filters }, ..old(self)@ }),
            final(self)@ == final(r)@,
    {
        self.filters.fletcher32(fletcher32);
        self
    }

    /// Enables scale-offset compression with the given factor (0 means
    /// automatic).
    pub fn scale_offset(&mut self, scale_offset: u32) -> (r: &mut Self)
        ensures
            r@ == (DatasetBuilderView { filters: FiltersView { scale_offset: Some(scale_offset), ..old(self)@.filters }, ..old(self)@ }),
            final(self)@ == final(r)@,
    {
        self.filters.scale_offset(scale_offset);
        self
    }

    /// The handle of the container, or the error binding it gave.
    pub fn parent(&self) -> (r: &Result<Handle, Error>)
        ensures
            match (r, self@.parent) {
                (Ok(h), Ok(i)) => h.spec_id() == i,
                (Err(e), Err(v)) => e@ == v,
                _ => false,
            },
    {
        &self.parent
    }

    /// The fill value, if one is set.
    pub fn get_fill_value(&self) -> (r: &Option<T>)
        ensures
            *r == self@.fill_value,
    {
        &self.fill_value
    }

    /// What the settings give a new dataset's creation property list, for a
    /// datatype of class `class` and element size `typesize` (`infos` what the
    /// library reports of its filters) and a dataset of shape `shape`: the
    /// filters' pipeline, the time tracking and the chunking; the filters are
    /// checked first. `limit` is the byte size that an inferred chunk is to
    /// stay under.
    pub fn make_dcpl(
        &self,
        class: TypeClass,
        infos: &[(i32, FilterInfo)],
        shape: &[usize],
        typesize: usize,
        limit: u64,
    ) -> (r: Result<DcplPlan, Error>)
        requires
            infers_chunk(self@.chunk, spec_has_filters(self@.filters), self@.resizable) ==> products_fit(shape@)
                && shape_size(shape@) * typesize <= usize::MAX,
        ensures
            match (r, spec_make_dcpl(self@, class, infos@, shape@, typesize as nat, limit as nat)) {
                (Ok(d), Ok((p, t, c))) => d.pipeline@.map_values(|e: PipelineFilter| e@) == p && d.track_times == t
                    && match c {
                        Some(dims) => d.storage.chunk is Some && d.storage.chunk->0@ == dims
                            && d.storage.fill_time == Some(FillTime::Alloc),
                        None => d.storage.chunk is None && d.storage.fill_time is None,
                    },
                (Err(e), Err(m)) => e@ == ErrorView::Internal(m),
                _ => false,
            },
    {
        let pipeline = match self.filters.to_dcpl(class, infos) {
            Ok(p) => p,
            Err(e) => {
                return Err(e);
            },
        };
        let has_filters = self.filters.has_filters();
        let storage = match plan_chunking(&self.chunk, has_filters, self.resizable, shape, typesize, limit) {
            Ok(c) => c,
            Err(e) => {
                return Err(e);
            },
        };
        Ok(DcplPlan { pipeline, track_times: self.track_times, storage })
    }
}

} // verus!

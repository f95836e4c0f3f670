//! Selections of dataset elements: hyperslabs built from slices and indices,
//! point lists, and their "raw" form (start, stride, count, block per axis)
//! resolved against a dataspace shape.

use vstd::prelude::*;
use crate::error::{Error, res_matches};
use crate::points::{Points, PointsView, check_coords, spec_check_coords, points_display, flatten_rows};
use crate::text::{dec_int, dec_nat, push_str, push_i64, push_u64, push_isize, push_usize, string_of};

verus! {

/// Resolves a possibly negative index against an axis of length `len`.
pub open spec fn spec_abs_index(len: int, index: int) -> int {
    if index < 0 {
        len + index
    } else {
        index
    }
}

/// Resolves a possibly negative index (counted from the end) against an axis
/// of length `len`.
pub fn abs_index(len: usize, index: isize) -> (r: isize)
    requires
        index < 0 ==> len <= isize::MAX,
    ensures
        r == spec_abs_index(len as int, index as int),
{
    if index < 0 {
        (len as isize) + index
    } else {
        index
    }
}

fn abs_index_wide(len: usize, index: isize) -> (r: i128)
    ensures
        r == spec_abs_index(len as int, index as int),
{
    if index < 0 {
        (len as i128) + (index as i128)
    } else {
        index as i128
    }
}

/// One axis of a regular hyperslab as the C library takes it: `count` blocks
/// of `block` elements, `step` apart, from `start`; no count means unlimited.
#[derive(Clone, Copy, Debug, PartialEq, Eq)]
pub struct RawSlice {
    pub start: usize,
    pub step: usize,
    pub count: Option<usize>,
    pub block: usize,
}

impl View for RawSlice {
    type V = RawSlice;

    open spec fn view(&self) -> RawSlice {
        *self
    }
}

impl RawSlice {
    pub fn new(start: usize, step: usize, count: Option<usize>, block: usize) -> (r: Self)
        ensures
            r == (RawSlice { start, step, count, block }),
    {
        RawSlice { start, step, count, block }
    }
}

/// One axis of a user selection: an index, a bounded slice, or a slice that
/// runs without bound; `block` makes each step select a whole block.
#[derive(Clone, Copy, Debug, PartialEq, Eq)]
pub enum SliceOrIndex {
    Index(isize),
    Slice { start: isize, step: isize, end: Option<isize>, block: bool },
    Unlimited { start: isize, step: isize, block: bool },
}

impl View for SliceOrIndex {
    type V = SliceOrIndex;

    open spec fn view(&self) -> SliceOrIndex {
        *self
    }
}

pub open spec fn msg_index_unlimited() -> Seq<char> {
    "Cannot make index selection unlimited"@
}

pub open spec fn msg_bounded_unlimited() -> Seq<char> {
    "Cannot make bounded slice unlimited"@
}

pub open spec fn msg_index_block() -> Seq<char> {
    "Cannot make index selection block-like"@
}

/// What `to_unlimited` gives.
pub open spec fn spec_to_unlimited(s: SliceOrIndex) -> Result<SliceOrIndex, Seq<char>> {
    match s {
        SliceOrIndex::Index(_) => Err(msg_index_unlimited()),
        SliceOrIndex::Slice { start, step, end, block } => match end {
            Some(_) => Err(msg_bounded_unlimited()),
            None => Ok(SliceOrIndex::Unlimited { start, step, block }),
        },
        SliceOrIndex::Unlimited { .. } => Ok(s),
    }
}

/// What `to_block` gives.
pub open spec fn spec_to_block(s: SliceOrIndex) -> Result<SliceOrIndex, Seq<char>> {
    match s {
        SliceOrIndex::Index(_) => Err(msg_index_block()),
        SliceOrIndex::Slice { start, step, end, block } => Ok(
            SliceOrIndex::Slice { start, step, end, block: true },
        ),
        SliceOrIndex::Unlimited { start, step, block } => Ok(
            SliceOrIndex::Unlimited { start, step, block: true },
        ),
    }
}

impl SliceOrIndex {
    /// Turns a slice without an end into an unlimited one.
    pub fn to_unlimited(self) -> (r: Result<Self, Error>)
        ensures
            res_matches(r, spec_to_unlimited(self)),
    {
        match self {
            SliceOrIndex::Index(_) => Err(Error::Internal(
                string_of("Cannot make index selection unlimited"),
            )),
            SliceOrIndex::Slice { start, step, end, block } => match end {
                Some(_) => Err(Error::Internal(string_of("Cannot make bounded slice unlimited"))),
                None => Ok(SliceOrIndex::Unlimited { start, step, block }),
            },
            SliceOrIndex::Unlimited { .. } => Ok(self),
        }
    }

    /// Makes a slice select whole blocks of `step` elements.
    pub fn to_block(self) -> (r: Result<Self, Error>)
        ensures
            res_matches(r, spec_to_block(self)),
    {
        match self {
            SliceOrIndex::Index(_) => Err(Error::Internal(
                string_of("Cannot make index selection block-like"),
            )),
            SliceOrIndex::Slice { start, step, end, .. } => Ok(
                SliceOrIndex::Slice { start, step, end, block: true },
            ),
            SliceOrIndex::Unlimited { start, step, .. } => Ok(
                SliceOrIndex::Unlimited { start, step, block: true },
            ),
        }
    }

    pub fn is_index(self) -> (r: bool)
        ensures
            r == (self is Index),
    {
        match self {
            SliceOrIndex::Index(_) => true,
            _ => false,
        }
    }

    pub fn is_slice(self) -> (r: bool)
        ensures
            r == (self is Slice),
    {
        match self {
            SliceOrIndex::Slice { .. } => true,
            _ => false,
        }
    }

    pub fn is_unlimited(self) -> (r: bool)
        ensures
            r == (self is Unlimited),
    {
        match self {
            SliceOrIndex::Unlimited { .. } => true,
            _ => false,
        }
    }
}

pub open spec fn msg_out_of_bounds(what: Seq<char>, value: int, axis: nat, dim: nat) -> Seq<char> {
    what + dec_int(value) + " out of bounds for axis "@ + dec_nat(axis) + " with size "@ + dec_nat(dim)
}

pub open spec fn msg_stride(step: int, axis: nat) -> Seq<char> {
    "Slice stride "@ + dec_int(step) + " < 1 for axis "@ + dec_nat(axis)
}

/// The number of blocks a bounded slice selects on `[s, e)`.
pub open spec fn slice_count(s: int, e: int, step: int, blk: int) -> int {
    if e < s + blk {
        0
    } else {
        1 + (e - s - blk) / step
    }
}

/// What `slice_info_to_raw` gives for one axis.
pub open spec fn spec_slice_to_raw(axis: nat, s: SliceOrIndex, dim: usize) -> Result<RawSlice, Seq<char>> {
    let d = dim as int;
    match s {
        SliceOrIndex::Index(index) => {
            let idx = spec_abs_index(d, index as int);
            if 0 <= idx < d {
                Ok(RawSlice { start: idx as usize, step: 1, count: Some(1), block: 1 })
            } else {
                Err(msg_out_of_bounds("Index "@, index as int, axis, dim as nat))
            }
        },
        SliceOrIndex::Slice { start, step, end, block } => {
            if step < 1 {
                Err(msg_stride(step as int, axis))
            } else {
                let s0 = spec_abs_index(d, start as int);
                if !(0 <= s0 <= d) {
                    Err(msg_out_of_bounds("Slice start "@, start as int, axis, dim as nat))
                } else {
                    let e0: int = match end {
                        Some(e) => e as int,
                        None => d,
                    };
                    let e = spec_abs_index(d, e0);
                    if !(0 <= e <= d) {
                        Err(msg_out_of_bounds("Slice end "@, e0, axis, dim as nat))
                    } else {
                        let blk: int = if block { step as int } else { 1 };
                        Ok(RawSlice {
                            start: s0 as usize,
                            step: step as usize,
                            count: Some(slice_count(s0, e, step as int, blk) as usize),
                            block: blk as usize,
                        })
                    }
                }
            }
        },
        SliceOrIndex::Unlimited { start, step, block } => {
            if step < 1 {
                Err(msg_stride(step as int, axis))
            } else {
                let s0 = spec_abs_index(d, start as int);
                if !(0 <= s0 <= d) {
                    Err(msg_out_of_bounds("Slice start "@, start as int, axis, dim as nat))
                } else {
                    let blk: int = if block { step as int } else { 1 };
                    Ok(RawSlice { start: s0 as usize, step: step as usize, count: None, block: blk as usize })
                }
            }
        },
    }
}

pub(crate) fn out_of_bounds(what: &str, value: i128, axis: usize, dim: usize) -> (r: Error)
    requires
        i64::MIN <= value <= u64::MAX,
    ensures
        r matches Error::Internal(m) && m@ == msg_out_of_bounds(what@, value as int, axis as nat, dim as nat),
{
    let mut s = string_of(what);
    if value < 0 {
        push_i64(&mut s, value as i64);
    } else {
        push_u64(&mut s, value as u64);
    }
    push_str(&mut s, " out of bounds for axis ");
    push_usize(&mut s, axis);
    push_str(&mut s, " with size ");
    push_usize(&mut s, dim);
    Error::Internal(s)
}

fn stride_error(step: isize, axis: usize) -> (r: Error)
    ensures
        r matches Error::Internal(m) && m@ == msg_stride(step as int, axis as nat),
{
    let mut s = string_of("Slice stride ");
    push_isize(&mut s, step);
    push_str(&mut s, " < 1 for axis ");
    push_usize(&mut s, axis);
    Error::Internal(s)
}

proof fn lemma_slice_count_bounds(s: int, e: int, step: int, blk: int)
    requires
        0 <= s,
        0 <= e,
        step >= 1,
        1 <= blk <= step,
    ensures
        0 <= slice_count(s, e, step, blk),
        slice_count(s, e, step, blk) > 0 ==> slice_count(s, e, step, blk) <= e - s,
        slice_count(s, e, step, blk) > 0 ==> (slice_count(s, e, step, blk) - 1) * step + blk <= e - s,
{
    if e >= s + blk {
        let x = e - s - blk;
        let q = x / step;
        vstd::arithmetic::div_mod::lemma_fundamental_div_mod(x, step);
        assert(q * step <= x) by (nonlinear_arith)
            requires x >= 0, step >= 1, q == x / step, x == step * q + x % step, 0 <= x % step < step;
        assert(q <= x) by (nonlinear_arith)
            requires q * step <= x, step >= 1, x >= 0, q >= 0 || q < 0;
        assert(q >= 0) by (nonlinear_arith)
            requires x >= 0, step >= 1, q == x / step;
    }
}

/// Converts one axis of a user selection into its raw form against an axis
/// of length `dim`.
fn slice_info_to_raw(axis: usize, slice: &SliceOrIndex, dim: usize) -> (r: Result<RawSlice, Error>)
    ensures
        res_matches(r, spec_slice_to_raw(axis as nat, *slice, dim)),
{
    match *slice {
        SliceOrIndex::Index(index) => {
            let idx = abs_index_wide(dim, index);
            if idx >= 0 && idx < dim as i128 {
                Ok(RawSlice { start: idx as usize, step: 1, count: Some(1), block: 1 })
            } else {
                Err(out_of_bounds("Index ", index as i128, axis, dim))
            }
        },
        SliceOrIndex::Slice { start, step, end, block } => {
            if step < 1 {
                return Err(stride_error(step, axis));
            }
            let s = abs_index_wide(dim, start);
            if !(s >= 0 && s <= dim as i128) {
                return Err(out_of_bounds("Slice start ", start as i128, axis, dim));
            }
            let e0: i128 = match end {
                Some(e) => e as i128,
                None => dim as i128,
            };
            let e: i128 = if e0 < 0 { dim as i128 + e0 } else { e0 };
            if !(e >= 0 && e <= dim as i128) {
                assert(end is Some);
                return Err(out_of_bounds("Slice end ", e0, axis, dim));
            }
            let blk: i128 = if block { step as i128 } else { 1 };
            proof {
                lemma_slice_count_bounds(s as int, e as int, step as int, blk as int);
            }
            let count: i128 = if e < s + blk { 0 } else { 1 + (e - s - blk) / (step as i128) };
            Ok(RawSlice { start: s as usize, step: step as usize, count: Some(count as usize), block: blk as usize })
        },
        SliceOrIndex::Unlimited { start, step, block } => {
            if step < 1 {
                return Err(stride_error(step, axis));
            }
            let s = abs_index_wide(dim, start);
            if !(s >= 0 && s <= dim as i128) {
                return Err(out_of_bounds("Slice start ", start as i128, axis, dim));
            }
            let blk: i128 = if block { step as i128 } else { 1 };
            Ok(RawSlice { start: s as usize, step: step as usize, count: None, block: blk as usize })
        },
    }
}

} // verus!

verus! {

/// A regular hyperslab in raw form, one [`RawSlice`] per axis.
#[derive(Clone, Debug, PartialEq, Eq)]
pub struct RawHyperslab {
    dims: Vec<RawSlice>,
}

impl View for RawHyperslab {
    type V = Seq<RawSlice>;

    closed spec fn view(&self) -> Seq<RawSlice> {
        self.dims@
    }
}

/// Some axis selects nothing.
pub open spec fn spec_raw_is_none(h: Seq<RawSlice>) -> bool {
    exists|i: int| 0 <= i < h.len() && h[i].count == Some(0usize)
}

/// The hyperslab covers the whole of `shape` (checked on the axes that both
/// have).
pub open spec fn spec_raw_is_all(h: Seq<RawSlice>, shape: Seq<usize>) -> bool {
    h.len() == 0 || forall|i: int|
        0 <= i < h.len() && i < shape.len() ==> #[trigger] raw_axis_full(h[i], shape[i])
}

/// One raw axis covers the whole axis of length `dim`.
pub open spec fn raw_axis_full(r: RawSlice, dim: usize) -> bool {
    &&& r.count is Some
    &&& r.start == 0
    &&& r.step == r.block
    &&& r.count.unwrap() * r.block == dim
}

impl RawHyperslab {
    pub fn new(dims: Vec<RawSlice>) -> (r: Self)
        ensures
            r@ == dims@,
    {
        RawHyperslab { dims }
    }

    pub fn len(&self) -> (r: usize)
        ensures
            r == self@.len(),
    {
        self.dims.len()
    }

    pub fn get(&self, i: usize) -> (r: RawSlice)
        requires
            i < self@.len(),
        ensures
            r == self@[i as int],
    {
        self.dims[i]
    }

    pub fn to_vec(&self) -> (r: Vec<RawSlice>)
        ensures
            r@ == self@,
    {
        let mut v: Vec<RawSlice> = Vec::new();
        let mut i: usize = 0;
        while i < self.dims.len()
            invariant
                i <= self.dims@.len(),
                v@ == self.dims@.take(i as int),
            decreases self.dims@.len() - i,
        {
            v.push(self.dims[i]);
            i = i + 1;
            assert(v@ =~= self.dims@.take(i as int));
        }
        assert(self.dims@.take(i as int) =~= self.dims@);
        v
    }

    fn is_none(&self) -> (r: bool)
        ensures
            r == spec_raw_is_none(self@),
    {
        let mut i: usize = 0;
        while i < self.dims.len()
            invariant
                i <= self.dims@.len(),
                forall|j: int| 0 <= j < i ==> self.dims@[j].count != Some(0usize),
            decreases self.dims@.len() - i,
        {
            if self.dims[i].count == Some(0usize) {
                return true;
            }
            i = i + 1;
        }
        false
    }

    fn is_all(&self, shape: &[usize]) -> (r: bool)
        ensures
            r == spec_raw_is_all(self@, shape@),
    {
        if self.dims.len() == 0 {
            return true;
        }
        let mut i: usize = 0;
        while i < self.dims.len() && i < shape.len()
            invariant
                i <= self.dims@.len(),
                self.dims@.len() > 0,
                forall|j: int| 0 <= j < i && j < shape@.len() ==> #[trigger] raw_axis_full(self.dims@[j], shape@[j]),
            decreases self.dims@.len() - i,
        {
            let slice = self.dims[i];
            let count = match slice.count {
                Some(c) => c,
                None => {
                    assert(!raw_axis_full(self.dims@[i as int], shape@[i as int]));
                    return false;
                },
            };
            let ok = slice.start == 0 && slice.step == slice.block && match count.checked_mul(slice.block) {
                Some(p) => p == shape[i],
                None => false,
            };
            if !ok {
                assert(!raw_axis_full(self.dims@[i as int], shape@[i as int]));
                return false;
            }
            i = i + 1;
        }
        assert(spec_raw_is_all(self@, shape@));
        true
    }
}

/// A user selection made of one [`SliceOrIndex`] per axis.
#[derive(Clone, Debug, PartialEq, Eq)]
pub struct Hyperslab {
    dims: Vec<SliceOrIndex>,
}

impl View for Hyperslab {
    type V = Seq<SliceOrIndex>;

    closed spec fn view(&self) -> Seq<SliceOrIndex> {
        self.dims@
    }
}

/// The number of unlimited axes among the first `n`.
pub open spec fn count_unlimited(d: Seq<SliceOrIndex>, n: nat) -> nat
    decreases n,
{
    if n == 0 {
        0
    } else {
        count_unlimited(d, (n - 1) as nat) + if d[n - 1] is Unlimited {
            1nat
        } else {
            0nat
        }
    }
}

pub open spec fn msg_ndim(a: nat, b: nat) -> Seq<char> {
    "Slice ndim ("@ + dec_nat(a) + ") != shape ndim ("@ + dec_nat(b) + ")"@
}

pub open spec fn msg_many_unlimited(n: nat) -> Seq<char> {
    "Expected at most 1 unlimited dimension, got "@ + dec_nat(n)
}

/// Raw slices of the first `n` axes, or the first error met.
pub open spec fn spec_raw_slices(d: Seq<SliceOrIndex>, shape: Seq<usize>, n: nat) -> Result<Seq<RawSlice>, Seq<char>>
    decreases n,
{
    if n == 0 {
        Ok(Seq::empty())
    } else {
        match spec_raw_slices(d, shape, (n - 1) as nat) {
            Err(e) => Err(e),
            Ok(p) => match spec_slice_to_raw((n - 1) as nat, d[n - 1], shape[n - 1]) {
                Err(e) => Err(e),
                Ok(r) => Ok(p.push(r)),
            },
        }
    }
}

/// What `Hyperslab::into_raw` gives against `shape`.
pub open spec fn spec_hyper_into_raw(d: Seq<SliceOrIndex>, shape: Seq<usize>) -> Result<Seq<RawSlice>, Seq<char>> {
    if d.len() != shape.len() {
        Err(msg_ndim(d.len(), shape.len()))
    } else if count_unlimited(d, d.len()) > 1 {
        Err(msg_many_unlimited(count_unlimited(d, d.len())))
    } else {
        spec_raw_slices(d, shape, d.len())
    }
}

pub open spec fn msg_block_step(axis: nat, block: nat, step: nat) -> Seq<char> {
    "Unsupported block/step for axis "@ + dec_nat(axis) + ": "@ + dec_nat(block) + "/"@ + dec_nat(step)
}

/// The (inclusive-exclusive) end of a bounded raw slice.
pub open spec fn raw_end(r: RawSlice, c: nat) -> int {
    r.start + if c == 0 {
        0
    } else {
        (c - 1) * r.step + r.block
    }
}

/// The raw slice's end fits in `usize`, as `from_raw` computes it there.
pub open spec fn raw_end_fits(r: RawSlice) -> bool {
    r.count matches Some(c) ==> raw_end(r, c as nat) <= usize::MAX
}

/// What `Hyperslab::from_raw` gives for one axis.
pub open spec fn spec_slice_from_raw(axis: nat, r: RawSlice) -> Result<SliceOrIndex, Seq<char>> {
    if r.block != 1 && r.block != r.step {
        Err(msg_block_step(axis, r.block as nat, r.step as nat))
    } else {
        let block = r.block != 1;
        match r.count {
            Some(c) => Ok(
                SliceOrIndex::Slice {
                    start: r.start as isize,
                    step: r.step as isize,
                    end: Some(raw_end(r, c as nat) as isize),
                    block,
                },
            ),
            None => Ok(SliceOrIndex::Unlimited { start: r.start as isize, step: r.step as isize, block }),
        }
    }
}

/// The first `n` axes converted back from raw form, or the first error met.
pub open spec fn spec_slices_from_raw(h: Seq<RawSlice>, n: nat) -> Result<Seq<SliceOrIndex>, Seq<char>>
    decreases n,
{
    if n == 0 {
        Ok(Seq::empty())
    } else {
        match spec_slices_from_raw(h, (n - 1) as nat) {
            Err(e) => Err(e),
            Ok(p) => match spec_slice_from_raw((n - 1) as nat, h[n - 1]) {
                Err(e) => Err(e),
                Ok(s) => Ok(p.push(s)),
            },
        }
    }
}

pub open spec fn msg_axis_unlimited(axis: nat) -> Seq<char> {
    "Invalid axis for making hyperslab unlimited: "@ + dec_nat(axis)
}

pub open spec fn msg_axis_block(axis: nat) -> Seq<char> {
    "Invalid axis for changing the slice to block-like: "@ + dec_nat(axis)
}

pub open spec fn msg_has_unlimited() -> Seq<char> {
    "The hyperslab already has one unlimited axis"@
}

/// `i` is the first unlimited axis of `d`.
pub open spec fn first_unlimited(d: Seq<SliceOrIndex>, i: int) -> bool {
    &&& 0 <= i < d.len()
    &&& d[i] is Unlimited
    &&& forall|j: int| 0 <= j < i ==> !(d[j] is Unlimited)
}

/// No axis of `d` is unlimited.
pub open spec fn no_unlimited(d: Seq<SliceOrIndex>) -> bool {
    forall|j: int| 0 <= j < d.len() ==> !(d[j] is Unlimited)
}

/// What `set_unlimited` gives.
pub open spec fn spec_set_unlimited(d: Seq<SliceOrIndex>, axis: nat) -> Result<Seq<SliceOrIndex>, Seq<char>> {
    if !no_unlimited(d) && !first_unlimited(d, axis as int) {
        Err(msg_has_unlimited())
    } else if axis < d.len() {
        match spec_to_unlimited(d[axis as int]) {
            Ok(s) => Ok(d.update(axis as int, s)),
            Err(e) => Err(e),
        }
    } else {
        Err(msg_axis_unlimited(axis))
    }
}

/// What `set_block` gives.
pub open spec fn spec_set_block(d: Seq<SliceOrIndex>, axis: nat) -> Result<Seq<SliceOrIndex>, Seq<char>> {
    if axis < d.len() {
        match spec_to_block(d[axis as int]) {
            Ok(s) => Ok(d.update(axis as int, s)),
            Err(e) => Err(e),
        }
    } else {
        Err(msg_axis_block(axis))
    }
}

proof fn lemma_raw_slices_err(d: Seq<SliceOrIndex>, shape: Seq<usize>, n: nat, m: nat)
    requires
        n <= m,
        spec_raw_slices(d, shape, n) is Err,
    ensures
        spec_raw_slices(d, shape, m) == spec_raw_slices(d, shape, n),
    decreases m - n,
{
    if n < m {
        lemma_raw_slices_err(d, shape, n, (m - 1) as nat);
    }
}

proof fn lemma_slices_from_raw_err(h: Seq<RawSlice>, n: nat, m: nat)
    requires
        n <= m,
        spec_slices_from_raw(h, n) is Err,
    ensures
        spec_slices_from_raw(h, m) == spec_slices_from_raw(h, n),
    decreases m - n,
{
    if n < m {
        lemma_slices_from_raw_err(h, n, (m - 1) as nat);
    }
}

fn copy_slices(v: &Vec<SliceOrIndex>) -> (r: Vec<SliceOrIndex>)
    ensures
        r@ == v@,
{
    let mut out: Vec<SliceOrIndex> = Vec::new();
    let mut i: usize = 0;
    while i < v.len()
        invariant
            i <= v@.len(),
            out@ == v@.take(i as int),
        decreases v@.len() - i,
    {
        out.push(v[i]);
        i = i + 1;
        assert(out@ =~= v@.take(i as int));
    }
    assert(v@.take(i as int) =~= v@);
    out
}

fn axis_error(prefix: &str, axis: usize) -> (r: Error)
    ensures
        r matches Error::Internal(m) && m@ == prefix@ + dec_nat(axis as nat),
{
    let mut s = string_of(prefix);
    push_usize(&mut s, axis);
    Error::Internal(s)
}


/// One axis: what `from_raw` gives back for a raw slice that `into_raw` made
/// resolves again to that same raw slice.
proof fn lemma_axis_roundtrip(axis: nat, s: SliceOrIndex, dim: usize)
    requires
        dim <= isize::MAX,
        spec_slice_to_raw(axis, s, dim) is Ok,
    ensures
        ({
            let r = spec_slice_to_raw(axis, s, dim)->Ok_0;
            &&& raw_end_fits(r)
            &&& (r.count is None <==> s is Unlimited)
            &&& spec_slice_from_raw(axis, r) is Ok
            &&& (spec_slice_from_raw(axis, r)->Ok_0 is Unlimited <==> s is Unlimited)
            &&& spec_slice_to_raw(axis, spec_slice_from_raw(axis, r)->Ok_0, dim) == Ok::<RawSlice, Seq<char>>(r)
        }),
{
    let r = spec_slice_to_raw(axis, s, dim)->Ok_0;
    let d = dim as int;
    match s {
        SliceOrIndex::Index(index) => {
            let idx = spec_abs_index(d, index as int);
            assert(r == RawSlice { start: idx as usize, step: 1, count: Some(1), block: 1 });
            assert(r.start == idx);
            assert(raw_end(r, 1) == idx + 1);
            let s2 = spec_slice_from_raw(axis, r)->Ok_0;
            assert(s2 == SliceOrIndex::Slice { start: idx as isize, step: 1, end: Some((idx + 1) as isize), block: false });
            assert(slice_count(idx, idx + 1, 1, 1) == 1);
        },
        SliceOrIndex::Slice { start, step, end, block } => {
            let s0 = spec_abs_index(d, start as int);
            let e0: int = match end {
                Some(e) => e as int,
                None => d,
            };
            let e = spec_abs_index(d, e0);
            let blk: int = if block { step as int } else { 1 };
            let c = slice_count(s0, e, step as int, blk);
            lemma_slice_count_bounds(s0, e, step as int, blk);
            let en = raw_end(r, c as nat);
            assert(r.start == s0 && r.step == step && r.block == blk && r.count == Some(c as usize));
            assert(s0 <= en <= d) by {
                if c > 0 {
                    assert(en <= e);
                }
            }
            let s2 = spec_slice_from_raw(axis, r)->Ok_0;
            let blk2: int = if r.block != 1 { step as int } else { 1 };
            assert(blk2 == blk);
            if c == 0 {
                assert(en == s0);
                assert(slice_count(s0, en, step as int, blk) == 0);
            } else {
                assert(en - s0 - blk == (c - 1) * step);
                vstd::arithmetic::div_mod::lemma_div_multiples_vanish(c - 1, step as int);
                assert((step as int) * (c - 1) == (c - 1) * step) by (nonlinear_arith);
                assert(slice_count(s0, en, step as int, blk) == c);
            }
            assert(s2 == SliceOrIndex::Slice { start: s0 as isize, step, end: Some(en as isize), block: r.block != 1 });
        },
        SliceOrIndex::Unlimited { start, step, block } => {},
    }
}

proof fn lemma_raw_slices_prefix(d1: Seq<SliceOrIndex>, d2: Seq<SliceOrIndex>, shape: Seq<usize>, n: nat)
    requires
        n <= d1.len(),
        n <= d2.len(),
        forall|i: int| 0 <= i < n ==> d1[i] == d2[i],
    ensures
        spec_raw_slices(d1, shape, n) == spec_raw_slices(d2, shape, n),
        count_unlimited(d1, n) == count_unlimited(d2, n),
    decreases n,
{
    if n > 0 {
        lemma_raw_slices_prefix(d1, d2, shape, (n - 1) as nat);
    }
}

proof fn lemma_from_raw_prefix(h1: Seq<RawSlice>, h2: Seq<RawSlice>, n: nat)
    requires
        n <= h1.len(),
        n <= h2.len(),
        forall|i: int| 0 <= i < n ==> h1[i] == h2[i],
    ensures
        spec_slices_from_raw(h1, n) == spec_slices_from_raw(h2, n),
    decreases n,
{
    if n > 0 {
        lemma_from_raw_prefix(h1, h2, (n - 1) as nat);
    }
}

proof fn lemma_raw_slices_ok(d: Seq<SliceOrIndex>, shape: Seq<usize>, n: nat)
    requires
        spec_raw_slices(d, shape, n) is Ok,
    ensures
        spec_raw_slices(d, shape, n)->Ok_0.len() == n,
    decreases n,
{
    if n > 0 {
        lemma_raw_slices_ok(d, shape, (n - 1) as nat);
    }
}

proof fn lemma_from_raw_ok(h: Seq<RawSlice>, n: nat)
    requires
        spec_slices_from_raw(h, n) is Ok,
    ensures
        spec_slices_from_raw(h, n)->Ok_0.len() == n,
    decreases n,
{
    if n > 0 {
        lemma_from_raw_ok(h, (n - 1) as nat);
    }
}

proof fn lemma_roundtrip_prefix(d: Seq<SliceOrIndex>, shape: Seq<usize>, n: nat)
    requires
        n <= d.len(),
        n <= shape.len(),
        forall|i: int| 0 <= i < shape.len() ==> shape[i] <= isize::MAX,
        spec_raw_slices(d, shape, n) is Ok,
    ensures
        ({
            let p = spec_raw_slices(d, shape, n)->Ok_0;
            &&& p.len() == n
            &&& forall|i: int| 0 <= i < n ==> raw_end_fits(#[trigger] p[i])
            &&& spec_slices_from_raw(p, n) is Ok
            &&& spec_raw_slices(spec_slices_from_raw(p, n)->Ok_0, shape, n) == Ok::<Seq<RawSlice>, Seq<char>>(p)
            &&& count_unlimited(spec_slices_from_raw(p, n)->Ok_0, n) == count_unlimited(d, n)
        }),
    decreases n,
{
    lemma_raw_slices_ok(d, shape, n);
    if n > 0 {
        let m = (n - 1) as nat;
        let prev = spec_raw_slices(d, shape, m);
        if prev is Err {
            assert(spec_raw_slices(d, shape, n) == prev);
        }
        lemma_roundtrip_prefix(d, shape, m);
        let pp = prev->Ok_0;
        let p = spec_raw_slices(d, shape, n)->Ok_0;
        let r = spec_slice_to_raw(m, d[m as int], shape[m as int]);
        assert(r is Ok);
        assert(p == pp.push(r->Ok_0));
        lemma_axis_roundtrip(m, d[m as int], shape[m as int]);
        lemma_from_raw_prefix(p, pp, m);
        let qq = spec_slices_from_raw(pp, m)->Ok_0;
        let s2 = spec_slice_from_raw(m, r->Ok_0)->Ok_0;
        let q = spec_slices_from_raw(p, n)->Ok_0;
        assert(q == qq.push(s2));
        lemma_from_raw_ok(pp, m);
        lemma_raw_slices_prefix(q, qq, shape, m);
        assert(spec_raw_slices(q, shape, n) == Ok::<Seq<RawSlice>, Seq<char>>(p));
        assert(count_unlimited(q, n) == count_unlimited(d, n));
        assert forall|i: int| 0 <= i < n implies raw_end_fits(#[trigger] p[i]) by {
            if i < m {
                assert(p[i] == pp[i]);
            }
        }
    }
}

/// Resolving a hyperslab, converting the raw form back, and resolving the
/// result again gives the same raw hyperslab: `from_raw` always succeeds on
/// what `into_raw` made, and the two agree up to normalisation of the slices.
pub proof fn hyperslab_raw_roundtrip(h: Seq<SliceOrIndex>, shape: Seq<usize>)
    requires
        forall|i: int| 0 <= i < shape.len() ==> shape[i] <= isize::MAX,
        spec_hyper_into_raw(h, shape) is Ok,
    ensures
        ({
            let r = spec_hyper_into_raw(h, shape)->Ok_0;
            &&& forall|i: int| 0 <= i < r.len() ==> raw_end_fits(#[trigger] r[i])
            &&& spec_slices_from_raw(r, r.len()) is Ok
            &&& spec_hyper_into_raw(spec_slices_from_raw(r, r.len())->Ok_0, shape)
                == Ok::<Seq<RawSlice>, Seq<char>>(r)
        }),
{
    lemma_roundtrip_prefix(h, shape, h.len());
    let r = spec_hyper_into_raw(h, shape)->Ok_0;
    lemma_from_raw_ok(r, r.len());
}

/// How each axis of a resolved hyperslab relates to the axis it came from:
/// an index selects one element at its position; a slice keeps its step,
/// counts its blocks when it is bounded and leaves the count open when it is
/// unlimited, and takes one element per step, or a whole step of elements when
/// it is a block slice. Every start lies within the axis.
pub proof fn hyperslab_raw_axes(h: Seq<SliceOrIndex>, shape: Seq<usize>)
    requires
        spec_hyper_into_raw(h, shape) is Ok,
    ensures
        ({
            let r = spec_hyper_into_raw(h, shape)->Ok_0;
            &&& r.len() == h.len()
            &&& h.len() == shape.len()
            &&& forall|i: int| #![trigger r[i]] 0 <= i < r.len() ==> match h[i] {
                SliceOrIndex::Index(_) => r[i].step == 1 && r[i].count == Some(1usize)
                    && r[i].block == 1 && r[i].start < shape[i],
                SliceOrIndex::Slice { step, block, .. } => r[i].step == step && r[i].count is Some
                    && r[i].block == (if block { step as int } else { 1 }) && r[i].start <= shape[i],
                SliceOrIndex::Unlimited { step, block, .. } => r[i].step == step && r[i].count is None
                    && r[i].block == (if block { step as int } else { 1 }) && r[i].start <= shape[i],
            }
        }),
{
    lemma_raw_slices_elems(h, shape, h.len());
    let r = spec_hyper_into_raw(h, shape)->Ok_0;
    assert forall|i: int| #![trigger r[i]] 0 <= i < r.len() implies match h[i] {
        SliceOrIndex::Index(_) => r[i].step == 1 && r[i].count == Some(1usize)
            && r[i].block == 1 && r[i].start < shape[i],
        SliceOrIndex::Slice { step, block, .. } => r[i].step == step && r[i].count is Some
            && r[i].block == (if block { step as int } else { 1 }) && r[i].start <= shape[i],
        SliceOrIndex::Unlimited { step, block, .. } => r[i].step == step && r[i].count is None
            && r[i].block == (if block { step as int } else { 1 }) && r[i].start <= shape[i],
    } by {
        assert(spec_slice_to_raw(i as nat, h[i], shape[i]) == Ok::<RawSlice, Seq<char>>(r[i]));
    }
}

impl Hyperslab {
    pub fn new(dims: Vec<SliceOrIndex>) -> (r: Self)
        ensures
            r@ == dims@,
    {
        Hyperslab { dims }
    }

    pub fn len(&self) -> (r: usize)
        ensures
            r == self@.len(),
    {
        self.dims.len()
    }

    pub fn get(&self, i: usize) -> (r: SliceOrIndex)
        requires
            i < self@.len(),
        ensures
            r == self@[i as int],
    {
        self.dims[i]
    }

    pub fn to_vec(&self) -> (r: Vec<SliceOrIndex>)
        ensures
            r@ == self@,
    {
        copy_slices(&self.dims)
    }

    pub fn is_unlimited(&self) -> (r: bool)
        ensures
            r == !no_unlimited(self@),
    {
        match self.unlimited_axis() {
            Some(_) => true,
            None => false,
        }
    }

    /// The first unlimited axis, if any.
    pub fn unlimited_axis(&self) -> (r: Option<usize>)
        ensures
            r matches Some(i) ==> first_unlimited(self@, i as int),
            r is None ==> no_unlimited(self@),
    {
        let mut i: usize = 0;
        while i < self.dims.len()
            invariant
                i <= self.dims@.len(),
                forall|j: int| 0 <= j < i ==> !(self.dims@[j] is Unlimited),
            decreases self.dims@.len() - i,
        {
            if self.dims[i].is_unlimited() {
                return Some(i);
            }
            i = i + 1;
        }
        None
    }

    /// Makes the slice on `axis` unlimited; at most one axis may be unlimited.
    pub fn set_unlimited(&self, axis: usize) -> (r: Result<Self, Error>)
        ensures
            res_matches(r, spec_set_unlimited(self@, axis as nat)),
    {
        let unlim = self.unlimited_axis();
        let other = match unlim {
            Some(a) => a != axis,
            None => false,
        };
        if other {
            proof {
                let a = unlim.unwrap();
                if first_unlimited(self@, axis as int) {
                    assert(a as int != axis as int);
                    if (a as int) < (axis as int) {
                        assert(!(self@[a as int] is Unlimited));
                    } else {
                        assert(!(self@[axis as int] is Unlimited));
                    }
                }
            }
            Err(Error::Internal(string_of("The hyperslab already has one unlimited axis")))
        } else if axis < self.dims.len() {
            let mut dims = copy_slices(&self.dims);
            let s = self.dims[axis].to_unlimited()?;
            dims.set(axis, s);
            Ok(Hyperslab { dims })
        } else {
            Err(axis_error("Invalid axis for making hyperslab unlimited: ", axis))
        }
    }

    /// Makes the slice on `axis` select whole blocks.
    pub fn set_block(&self, axis: usize) -> (r: Result<Self, Error>)
        ensures
            res_matches(r, spec_set_block(self@, axis as nat)),
    {
        if axis < self.dims.len() {
            let mut dims = copy_slices(&self.dims);
            let s = self.dims[axis].to_block()?;
            dims.set(axis, s);
            Ok(Hyperslab { dims })
        } else {
            Err(axis_error("Invalid axis for changing the slice to block-like: ", axis))
        }
    }

    /// Resolves the hyperslab against a dataspace shape.
    pub fn into_raw(self, shape: &[usize]) -> (r: Result<RawHyperslab, Error>)
        ensures
            res_matches(r, spec_hyper_into_raw(self@, shape@)),
    {
        self.resolve(shape)
    }

    fn resolve(&self, shape: &[usize]) -> (r: Result<RawHyperslab, Error>)
        ensures
            res_matches(r, spec_hyper_into_raw(self@, shape@)),
    {
        let ndim = shape.len();
        if self.dims.len() != ndim {
            let mut s = string_of("Slice ndim (");
            push_usize(&mut s, self.dims.len());
            push_str(&mut s, ") != shape ndim (");
            push_usize(&mut s, ndim);
            push_str(&mut s, ")");
            return Err(Error::Internal(s));
        }
        let mut n_unlimited: usize = 0;
        let mut i: usize = 0;
        while i < self.dims.len()
            invariant
                i <= self.dims@.len(),
                n_unlimited == count_unlimited(self.dims@, i as nat),
                n_unlimited <= i,
            decreases self.dims@.len() - i,
        {
            if self.dims[i].is_unlimited() {
                n_unlimited = n_unlimited + 1;
            }
            i = i + 1;
        }
        if n_unlimited > 1 {
            let mut s = string_of("Expected at most 1 unlimited dimension, got ");
            push_usize(&mut s, n_unlimited);
            return Err(Error::Internal(s));
        }
        let mut raw: Vec<RawSlice> = Vec::new();
        let mut i: usize = 0;
        while i < self.dims.len()
            invariant
                i <= self.dims@.len(),
                ndim == shape@.len(),
                self.dims@.len() == ndim,
                count_unlimited(self.dims@, self.dims@.len()) <= 1,
                spec_raw_slices(self.dims@, shape@, i as nat) == Ok::<Seq<RawSlice>, Seq<char>>(raw@),
            decreases self.dims@.len() - i,
        {
            let r = slice_info_to_raw(i, &self.dims[i], shape[i]);
            match r {
                Ok(rs) => {
                    raw.push(rs);
                },
                Err(e) => {
                    proof {
                        lemma_raw_slices_err(self.dims@, shape@, (i + 1) as nat, self.dims@.len());
                    }
                    return Err(e);
                },
            }
            i = i + 1;
        }
        Ok(RawHyperslab { dims: raw })
    }

    /// Converts a raw hyperslab back into slices.
    pub fn from_raw(hyper: RawHyperslab) -> (r: Result<Self, Error>)
        requires
            forall|i: int| 0 <= i < hyper@.len() ==> raw_end_fits(#[trigger] hyper@[i]),
        ensures
            res_matches(r, spec_slices_from_raw(hyper@, hyper@.len())),
    {
        let mut dims: Vec<SliceOrIndex> = Vec::new();
        let mut i: usize = 0;
        while i < hyper.dims.len()
            invariant
                i <= hyper.dims@.len(),
                forall|k: int| 0 <= k < hyper@.len() ==> raw_end_fits(#[trigger] hyper@[k]),
                hyper@ == hyper.dims@,
                spec_slices_from_raw(hyper.dims@, i as nat) == Ok::<Seq<SliceOrIndex>, Seq<char>>(dims@),
            decreases hyper.dims@.len() - i,
        {
            let slice = hyper.dims[i];
            let block = if slice.block == 1 {
                false
            } else if slice.block == slice.step {
                true
            } else {
                let mut s = string_of("Unsupported block/step for axis ");
                push_usize(&mut s, i);
                push_str(&mut s, ": ");
                push_usize(&mut s, slice.block);
                push_str(&mut s, "/");
                push_usize(&mut s, slice.step);
                proof {
                    lemma_slices_from_raw_err(hyper.dims@, (i + 1) as nat, hyper.dims@.len());
                }
                return Err(Error::Internal(s));
            };
            assert(raw_end_fits(hyper@[i as int]));
            let s = match slice.count {
                Some(count) => {
                    let end: u128 = if count == 0 {
                        slice.start as u128
                    } else {
                        (slice.start as u128) + ((count - 1) as u128) * (slice.step as u128)
                            + (slice.block as u128)
                    };
                    assert(end == raw_end(slice, count as nat)) by (nonlinear_arith)
                        requires
                            count == 0 ==> end == slice.start as u128,
                            count != 0 ==> end == (slice.start as u128) + ((count - 1) as u128) * (slice.step as u128) + (slice.block as u128);
                    SliceOrIndex::Slice {
                        start: slice.start as isize,
                        step: slice.step as isize,
                        end: Some(end as isize),
                        block,
                    }
                },
                None => SliceOrIndex::Unlimited {
                    start: slice.start as isize,
                    step: slice.step as isize,
                    block,
                },
            };
            dims.push(s);
            i = i + 1;
        }
        Ok(Hyperslab { dims })
    }
}

} // verus!

verus! {

proof fn lemma_axis_bounds(axis: nat, s: SliceOrIndex, dim: usize)
    requires
        spec_slice_to_raw(axis, s, dim) is Ok,
    ensures
        ({
            let r = spec_slice_to_raw(axis, s, dim)->Ok_0;
            &&& (r.count is None <==> s is Unlimited)
            &&& r.count matches Some(c) ==> c * r.block <= dim
        }),
{
    let d = dim as int;
    match s {
        SliceOrIndex::Slice { start, step, end, block } => {
            let s0 = spec_abs_index(d, start as int);
            let e0: int = match end {
                Some(e) => e as int,
                None => d,
            };
            let e = spec_abs_index(d, e0);
            let blk: int = if block { step as int } else { 1 };
            let c = slice_count(s0, e, step as int, blk);
            let r = spec_slice_to_raw(axis, s, dim)->Ok_0;
            assert(r.block == blk && r.count == Some(c as usize));
            lemma_slice_count_bounds(s0, e, step as int, blk);
            if c > 0 {
                assert(c * blk <= (c - 1) * step + blk) by (nonlinear_arith)
                    requires c >= 1, 1 <= blk <= step;
            }
        },
        _ => {},
    }
}

proof fn lemma_raw_slices_elems(d: Seq<SliceOrIndex>, shape: Seq<usize>, n: nat)
    requires
        spec_raw_slices(d, shape, n) is Ok,
    ensures
        ({
            let p = spec_raw_slices(d, shape, n)->Ok_0;
            &&& p.len() == n
            &&& forall|i: int| 0 <= i < n ==> spec_slice_to_raw(i as nat, d[i], shape[i]) == Ok::<RawSlice, Seq<char>>(#[trigger] p[i])
        }),
    decreases n,
{
    if n > 0 {
        let m = (n - 1) as nat;
        if spec_raw_slices(d, shape, m) is Err {
            assert(spec_raw_slices(d, shape, n) is Err);
        }
        lemma_raw_slices_elems(d, shape, m);
        let pp = spec_raw_slices(d, shape, m)->Ok_0;
        let p = spec_raw_slices(d, shape, n)->Ok_0;
        assert forall|i: int| 0 <= i < n implies spec_slice_to_raw(i as nat, d[i], shape[i]) == Ok::<RawSlice, Seq<char>>(#[trigger] p[i]) by {
            if i < m {
                assert(p[i] == pp[i]);
            }
        }
    }
}

pub open spec fn msg_unlimited_shape() -> Seq<char> {
    "Unable to get the shape for unlimited hyperslab"@
}

pub open spec fn msg_complex_hyperslab() -> Seq<char> {
    "Cannot convert complex hyperslabs"@
}

/// The extents of the output of a resolved hyperslab, over its first `n`
/// axes: index axes drop out, the others give `count * block`.
pub open spec fn spec_out_dims(r: Seq<RawSlice>, h: Seq<SliceOrIndex>, n: nat) -> Result<Seq<usize>, Seq<char>>
    decreases n,
{
    if n == 0 {
        Ok(Seq::empty())
    } else {
        match spec_out_dims(r, h, (n - 1) as nat) {
            Err(e) => Err(e),
            Ok(v) => match r[n - 1].count {
                None => Err(msg_unlimited_shape()),
                Some(c) => if h[n - 1] is Index {
                    Ok(v)
                } else {
                    Ok(v.push((c * r[n - 1].block) as usize))
                },
            },
        }
    }
}

/// The number of bounded-slice axes among the first `n`.
pub open spec fn count_slices(h: Seq<SliceOrIndex>, n: nat) -> nat
    decreases n,
{
    if n == 0 {
        0
    } else {
        count_slices(h, (n - 1) as nat) + if h[n - 1] is Slice {
            1nat
        } else {
            0nat
        }
    }
}

/// Abstract value of a [`RawSelection`].
pub enum RawSelectionView {
    Empty,
    All,
    Points(PointsView),
    RegularHyperslab(Seq<RawSlice>),
    ComplexHyperslab,
}

/// A selection as the C library holds it in a dataspace.
#[derive(Clone, Debug, PartialEq, Eq)]
pub enum RawSelection {
    /// Nothing is selected.
    Empty,
    All,
    Points(Points),
    RegularHyperslab(RawHyperslab),
    ComplexHyperslab,
}

impl View for RawSelection {
    type V = RawSelectionView;

    open spec fn view(&self) -> RawSelectionView {
        match self {
            RawSelection::Empty => RawSelectionView::Empty,
            RawSelection::All => RawSelectionView::All,
            RawSelection::Points(p) => RawSelectionView::Points(p@),
            RawSelection::RegularHyperslab(h) => RawSelectionView::RegularHyperslab(h@),
            RawSelection::ComplexHyperslab => RawSelectionView::ComplexHyperslab,
        }
    }
}

impl Default for RawSelection {
    fn default() -> (r: Self)
        ensures
            r@ == RawSelectionView::All,
    {
        RawSelection::All
    }
}

/// Abstract value of a [`Selection`].
pub enum SelectionView {
    All,
    Points(PointsView),
    Hyperslab(Seq<SliceOrIndex>),
}

/// A selection of dataset elements: everything, a list of points, or a
/// hyperslab.
#[derive(Clone, Debug, PartialEq, Eq)]
pub enum Selection {
    All,
    Points(Points),
    Hyperslab(Hyperslab),
}

impl View for Selection {
    type V = SelectionView;

    open spec fn view(&self) -> SelectionView {
        match self {
            Selection::All => SelectionView::All,
            Selection::Points(p) => SelectionView::Points(p@),
            Selection::Hyperslab(h) => SelectionView::Hyperslab(h@),
        }
    }
}

impl Default for Selection {
    fn default() -> (r: Self)
        ensures
            r@ == SelectionView::All,
    {
        Selection::All
    }
}

/// The empty table of points, as an abstract value.
pub open spec fn empty_points() -> PointsView {
    PointsView { ncols: 0, rows: Seq::empty() }
}

/// What `Selection::into_raw` gives against `shape`.
pub open spec fn spec_sel_into_raw(s: SelectionView, shape: Seq<usize>) -> Result<RawSelectionView, Seq<char>> {
    match s {
        SelectionView::All => Ok(RawSelectionView::All),
        SelectionView::Points(p) => match spec_check_coords(p, shape) {
            Err(e) => Err(e),
            Ok(_) => if p.rows.len() == 0 {
                Ok(RawSelectionView::Empty)
            } else {
                Ok(RawSelectionView::Points(p))
            },
        },
        SelectionView::Hyperslab(h) => match spec_hyper_into_raw(h, shape) {
            Err(e) => Err(e),
            Ok(r) => if spec_raw_is_none(r) {
                Ok(RawSelectionView::Empty)
            } else if spec_raw_is_all(r, shape) {
                Ok(RawSelectionView::All)
            } else {
                Ok(RawSelectionView::RegularHyperslab(r))
            },
        },
    }
}

/// What `Selection::from_raw` gives.
pub open spec fn spec_sel_from_raw(r: RawSelectionView) -> Result<SelectionView, Seq<char>> {
    match r {
        RawSelectionView::Empty => Ok(SelectionView::Points(empty_points())),
        RawSelectionView::All => Ok(SelectionView::All),
        RawSelectionView::Points(p) => Ok(SelectionView::Points(p)),
        RawSelectionView::RegularHyperslab(h) => match spec_slices_from_raw(h, h.len()) {
            Err(e) => Err(e),
            Ok(d) => Ok(SelectionView::Hyperslab(d)),
        },
        RawSelectionView::ComplexHyperslab => Err(msg_complex_hyperslab()),
    }
}

/// The number of axes a selection takes from the dataspace, if fixed.
pub open spec fn spec_in_ndim(s: SelectionView) -> Option<nat> {
    match s {
        SelectionView::All => None,
        SelectionView::Points(p) => if p.is_empty_table() {
            None
        } else {
            Some(p.ncols)
        },
        SelectionView::Hyperslab(h) => Some(h.len()),
    }
}

/// The number of axes of what a selection gives, if fixed.
pub open spec fn spec_out_ndim(s: SelectionView) -> Option<nat> {
    match s {
        SelectionView::All => None,
        SelectionView::Points(p) => Some(if p.is_empty_table() { 0nat } else { 1nat }),
        SelectionView::Hyperslab(h) => Some(count_slices(h, h.len())),
    }
}

/// What `Selection::out_shape` gives for a dataspace of shape `in_shape`.
pub open spec fn spec_out_shape(s: SelectionView, in_shape: Seq<usize>) -> Result<Seq<usize>, Seq<char>> {
    match s {
        SelectionView::All => Ok(in_shape),
        SelectionView::Points(p) => match spec_check_coords(p, in_shape) {
            Err(e) => Err(e),
            Ok(_) => Ok(if p.is_empty_table() { Seq::empty() } else { seq![p.rows.len() as usize] }),
        },
        SelectionView::Hyperslab(h) => match spec_hyper_into_raw(h, in_shape) {
            Err(e) => Err(e),
            Ok(r) => spec_out_dims(r, h, h.len()),
        },
    }
}

/// A resolved selection and its raw form agree: every table of points is
/// rectangular.
pub open spec fn raw_selection_wf(r: RawSelection) -> bool {
    r matches RawSelection::Points(p) ==> p.wf()
}

/// Every table of points in a selection is rectangular.
pub open spec fn selection_wf(s: Selection) -> bool {
    s matches Selection::Points(p) ==> p.wf()
}

impl Selection {
    /// Resolves the selection against a dataspace shape.
    pub fn into_raw(self, shape: &[usize]) -> (r: Result<RawSelection, Error>)
        requires
            selection_wf(self),
        ensures
            res_matches(r, spec_sel_into_raw(self@, shape@)),
            r matches Ok(rs) ==> raw_selection_wf(rs),
    {
        match self {
            Selection::All => Ok(RawSelection::All),
            Selection::Points(coords) => {
                match check_coords(&coords, shape) {
                    Err(e) => Err(e),
                    Ok(_) => {
                        if coords.nrows() == 0 {
                            Ok(RawSelection::Empty)
                        } else {
                            Ok(RawSelection::Points(coords))
                        }
                    },
                }
            },
            Selection::Hyperslab(hyper) => {
                let raw = hyper.into_raw(shape)?;
                if raw.is_none() {
                    Ok(RawSelection::Empty)
                } else if raw.is_all(shape) {
                    Ok(RawSelection::All)
                } else {
                    Ok(RawSelection::RegularHyperslab(raw))
                }
            },
        }
    }

    /// Converts a raw selection back into a selection.
    pub fn from_raw(selection: RawSelection) -> (r: Result<Self, Error>)
        requires
            raw_selection_wf(selection),
            selection@ matches RawSelectionView::RegularHyperslab(h) ==> forall|i: int|
                0 <= i < h.len() ==> raw_end_fits(#[trigger] h[i]),
        ensures
            res_matches(r, spec_sel_from_raw(selection@)),
            r matches Ok(s) ==> selection_wf(s),
    {
        match selection {
            RawSelection::Empty => Ok(Selection::Points(Points::empty())),
            RawSelection::All => Ok(Selection::All),
            RawSelection::Points(coords) => Ok(Selection::Points(coords)),
            RawSelection::RegularHyperslab(hyper) => {
                let h = Hyperslab::from_raw(hyper)?;
                Ok(Selection::Hyperslab(h))
            },
            RawSelection::ComplexHyperslab => Err(Error::Internal(string_of("Cannot convert complex hyperslabs"))),
        }
    }

    /// The number of axes the selection takes from the dataspace, if fixed.
    pub fn in_ndim(&self) -> (r: Option<usize>)
        ensures
            r matches Some(n) ==> spec_in_ndim(self@) == Some(n as nat),
            r is None ==> spec_in_ndim(self@) is None,
    {
        match self {
            Selection::All => None,
            Selection::Points(p) => {
                if p.is_empty_table() {
                    None
                } else {
                    Some(p.ncols())
                }
            },
            Selection::Hyperslab(h) => Some(h.len()),
        }
    }

    /// The number of axes of what the selection gives, if fixed.
    pub fn out_ndim(&self) -> (r: Option<usize>)
        ensures
            r matches Some(n) ==> spec_out_ndim(self@) == Some(n as nat),
            r is None ==> spec_out_ndim(self@) is None,
    {
        match self {
            Selection::All => None,
            Selection::Points(p) => Some(if p.is_empty_table() { 0 } else { 1 }),
            Selection::Hyperslab(h) => {
                let mut n: usize = 0;
                let mut i: usize = 0;
                while i < h.len()
                    invariant
                        i <= h@.len(),
                        n == count_slices(h@, i as nat),
                        n <= i,
                    decreases h@.len() - i,
                {
                    if h.get(i).is_slice() {
                        n = n + 1;
                    }
                    i = i + 1;
                }
                Some(n)
            },
        }
    }

    /// The shape of what the selection gives from a dataspace of shape
    /// `in_shape`.
    pub fn out_shape(&self, in_shape: &[usize]) -> (r: Result<Vec<usize>, Error>)
        requires
            selection_wf(*self),
        ensures
            res_matches(r, spec_out_shape(self@, in_shape@)),
    {
        match self {
            Selection::All => {
                let mut v: Vec<usize> = Vec::new();
                let mut i: usize = 0;
                while i < in_shape.len()
                    invariant
                        i <= in_shape@.len(),
                        v@ == in_shape@.take(i as int),
                    decreases in_shape@.len() - i,
                {
                    v.push(in_shape[i]);
                    i = i + 1;
                    assert(v@ =~= in_shape@.take(i as int));
                }
                assert(in_shape@.take(i as int) =~= in_shape@);
                Ok(v)
            },
            Selection::Points(p) => {
                check_coords(p, in_shape)?;
                let mut v: Vec<usize> = Vec::new();
                if !p.is_empty_table() {
                    v.push(p.nrows());
                }
                assert(p@.is_empty_table() ==> v@ =~= Seq::<usize>::empty());
                Ok(v)
            },
            Selection::Hyperslab(h) => {
                let raw = h.resolve(in_shape)?;
                proof {
                    lemma_raw_slices_elems(h@, in_shape@, h@.len());
                    assert forall|k: int| 0 <= k < h@.len() implies ({
                        let rk = (#[trigger] raw@[k]);
                        &&& (rk.count is None <==> h@[k] is Unlimited)
                        &&& rk.count matches Some(c) ==> c * rk.block <= in_shape@[k]
                    }) by {
                        lemma_axis_bounds(k as nat, h@[k], in_shape@[k]);
                    }
                }
                let mut v: Vec<usize> = Vec::new();
                let mut i: usize = 0;
                while i < raw.len()
                    invariant
                        i <= raw@.len(),
                        raw@.len() == h@.len(),
                        h@.len() == in_shape@.len(),
                        forall|k: int| 0 <= k < h@.len() ==> ({
                            let rk = (#[trigger] raw@[k]);
                            rk.count matches Some(c) ==> c * rk.block <= in_shape@[k]
                        }),
                        spec_out_dims(raw@, h@, i as nat) == Ok::<Seq<usize>, Seq<char>>(v@),
                        self@ == SelectionView::Hyperslab(h@),
                        spec_hyper_into_raw(h@, in_shape@) == Ok::<Seq<RawSlice>, Seq<char>>(raw@),
                    decreases raw@.len() - i,
                {
                    let rs = raw.get(i);
                    match rs.count {
                        None => {
                            proof {
                                lemma_out_dims_err(raw@, h@, (i + 1) as nat, h@.len());
                            }
                            return Err(Error::Internal(string_of("Unable to get the shape for unlimited hyperslab")));
                        },
                        Some(c) => {
                            if !h.get(i).is_index() {
                                assert(c * rs.block <= in_shape@[i as int]);
                                v.push(c * rs.block);
                            }
                        },
                    }
                    i = i + 1;
                }
                Ok(v)
            },
        }
    }

    pub fn is_all(&self) -> (r: bool)
        ensures
            r == (self@ is All),
    {
        match self {
            Selection::All => true,
            _ => false,
        }
    }

    /// A non-empty list of points.
    pub fn is_points(&self) -> (r: bool)
        ensures
            r == (self@ matches SelectionView::Points(p) && !p.is_empty_table()),
    {
        match self {
            Selection::Points(p) => !p.is_empty_table(),
            _ => false,
        }
    }

    /// The empty list of points, which selects nothing.
    pub fn is_none(&self) -> (r: bool)
        ensures
            r == (self@ matches SelectionView::Points(p) && p.is_empty_table()),
    {
        match self {
            Selection::Points(p) => p.is_empty_table(),
            _ => false,
        }
    }

    pub fn is_hyperslab(&self) -> (r: bool)
        ensures
            r == (self@ is Hyperslab),
    {
        match self {
            Selection::Hyperslab(_) => true,
            _ => false,
        }
    }
}

proof fn lemma_out_dims_err(r: Seq<RawSlice>, h: Seq<SliceOrIndex>, n: nat, m: nat)
    requires
        n <= m,
        spec_out_dims(r, h, n) is Err,
    ensures
        spec_out_dims(r, h, m) == spec_out_dims(r, h, n),
    decreases m - n,
{
    if n < m {
        lemma_out_dims_err(r, h, n, (m - 1) as nat);
    }
}

} // verus!

verus! {

proof fn lemma_out_dims_len(r: Seq<RawSlice>, h: Seq<SliceOrIndex>, n: nat)
    requires
        n <= r.len(),
        n <= h.len(),
        forall|k: int| 0 <= k < n ==> ((#[trigger] r[k]).count is None <==> h[k] is Unlimited),
        spec_out_dims(r, h, n) is Ok,
    ensures
        spec_out_dims(r, h, n)->Ok_0.len() == count_slices(h, n),
    decreases n,
{
    if n > 0 {
        let m = (n - 1) as nat;
        if spec_out_dims(r, h, m) is Err {
            assert(spec_out_dims(r, h, n) is Err);
        }
        lemma_out_dims_len(r, h, m);
        assert(r[m as int].count is None <==> h[m as int] is Unlimited);
    }
}

/// Whatever a selection resolves to against a shape converts back without
/// error, and the converted selection resolves to the same raw selection.
pub proof fn selection_raw_roundtrip(s: SelectionView, shape: Seq<usize>)
    requires
        forall|i: int| 0 <= i < shape.len() ==> shape[i] <= isize::MAX,
        spec_sel_into_raw(s, shape) is Ok,
    ensures
        ({
            let r = spec_sel_into_raw(s, shape)->Ok_0;
            &&& r matches RawSelectionView::RegularHyperslab(h) ==> forall|i: int|
                0 <= i < h.len() ==> raw_end_fits(#[trigger] h[i])
            &&& spec_sel_from_raw(r) is Ok
            &&& spec_sel_into_raw(spec_sel_from_raw(r)->Ok_0, shape) == Ok::<RawSelectionView, Seq<char>>(r)
        }),
{
    match s {
        SelectionView::All => {},
        SelectionView::Points(p) => {
            let e = empty_points();
            assert(spec_check_coords(e, shape) == Ok::<(), Seq<char>>(()));
        },
        SelectionView::Hyperslab(h) => {
            let r = spec_hyper_into_raw(h, shape)->Ok_0;
            if spec_raw_is_none(r) {
                assert(spec_check_coords(empty_points(), shape) == Ok::<(), Seq<char>>(()));
            } else if spec_raw_is_all(r, shape) {
            } else {
                hyperslab_raw_roundtrip(h, shape);
            }
        },
    }
}

/// The shape a selection gives has as many axes as `out_ndim` says, or, when
/// that is not fixed, as many as the dataspace.
pub proof fn selection_out_shape_ndim(s: SelectionView, in_shape: Seq<usize>)
    requires
        spec_out_shape(s, in_shape) is Ok,
    ensures
        spec_out_shape(s, in_shape)->Ok_0.len() == match spec_out_ndim(s) {
            Some(k) => k,
            None => in_shape.len(),
        },
{
    match s {
        SelectionView::Hyperslab(h) => {
            let r = spec_hyper_into_raw(h, in_shape)->Ok_0;
            lemma_raw_slices_elems(h, in_shape, h.len());
            assert forall|k: int| 0 <= k < h.len() implies ((#[trigger] r[k]).count is None <==> h[k] is Unlimited) by {
                lemma_axis_bounds(k as nat, h[k], in_shape[k]);
            }
            lemma_out_dims_len(r, h, h.len());
        },
        _ => {},
    }
}

} // verus!

verus! {

/// The decimal rendering of `v` when `show` holds, nothing otherwise.
pub open spec fn dec_if(show: bool, v: int) -> Seq<char> {
    if show {
        dec_int(v)
    } else {
        Seq::empty()
    }
}

/// The text of the step and block marks of a slice: `;step` unless the step is
/// one, then `(B)` for a block slice.
pub open spec fn step_block_text(step: int, block: bool) -> Seq<char> {
    (if step != 1 { ";"@ + dec_int(step) } else { Seq::empty() }) + (if block { "(B)"@ } else { Seq::empty() })
}

/// How one axis of a hyperslab is printed.
pub open spec fn slice_text(s: SliceOrIndex) -> Seq<char> {
    match s {
        SliceOrIndex::Index(i) => dec_int(i as int),
        SliceOrIndex::Slice { start, step, end, block } => dec_if(start != 0, start as int) + ".."@ + match end {
            Some(e) => dec_int(e as int),
            None => Seq::empty(),
        } + step_block_text(step as int, block),
        SliceOrIndex::Unlimited { start, step, block } => dec_if(start != 0, start as int) + "..∞"@
            + step_block_text(step as int, block),
    }
}

/// The first `n` axes of a hyperslab printed and separated by `, `.
pub open spec fn join_slices(h: Seq<SliceOrIndex>, n: nat) -> Seq<char>
    decreases n,
{
    if n == 0 {
        Seq::empty()
    } else if n == 1 {
        slice_text(h[0])
    } else {
        join_slices(h, (n - 1) as nat) + ", "@ + slice_text(h[n - 1])
    }
}

/// How a hyperslab is printed: a tuple of its axes.
pub open spec fn hyperslab_text(h: Seq<SliceOrIndex>) -> Seq<char> {
    "("@ + join_slices(h, h.len()) + (if h.len() == 1 { ","@ } else { Seq::empty() }) + ")"@
}

/// How a selection is printed.
pub open spec fn selection_text(s: SelectionView) -> Seq<char> {
    match s {
        SelectionView::All => ".."@,
        SelectionView::Points(p) => if p.is_empty_table() {
            "[]"@
        } else {
            points_display(p.rows.len(), p.ncols, flatten_rows(p.rows))
        },
        SelectionView::Hyperslab(h) => hyperslab_text(h),
    }
}

fn push_step_block(s: &mut String, step: isize, block: bool)
    ensures
        final(s)@ == old(s)@ + step_block_text(step as int, block),
{
    let ghost s0 = s@;
    if step != 1 {
        push_str(s, ";");
        push_isize(s, step);
    }
    let ghost s1 = s@;
    if block {
        push_str(s, "(B)");
    }
    assert(s@ == s0 + step_block_text(step as int, block)) by {
        if step != 1 {
            assert(s1 =~= s0 + (";"@ + dec_int(step as int)));
        } else {
            assert(s1 =~= s0 + Seq::<char>::empty());
        }
    }
}

impl SliceOrIndex {
    fn push_text(self, s: &mut String)
        ensures
            final(s)@ == old(s)@ + slice_text(self),
    {
        let ghost s0 = s@;
        match self {
            SliceOrIndex::Index(i) => {
                push_isize(s, i);
            },
            SliceOrIndex::Slice { start, step, end, block } => {
                if start != 0 {
                    push_isize(s, start);
                }
                let ghost s1 = s@;
                assert(s1 =~= s0 + dec_if(start != 0, start as int));
                push_str(s, "..");
                let ghost s2 = s@;
                match end {
                    Some(e) => {
                        push_isize(s, e);
                    },
                    None => {},
                }
                let ghost s3 = s@;
                let ghost et: Seq<char> = match end {
                    Some(e) => dec_int(e as int),
                    None => Seq::empty(),
                };
                assert(s3 =~= s2 + et);
                push_step_block(s, step, block);
                assert(s@ =~= s0 + dec_if(start != 0, start as int) + ".."@ + et + step_block_text(step as int, block));
            },
            SliceOrIndex::Unlimited { start, step, block } => {
                if start != 0 {
                    push_isize(s, start);
                }
                let ghost s1 = s@;
                assert(s1 =~= s0 + dec_if(start != 0, start as int));
                push_str(s, "..∞");
                push_step_block(s, step, block);
                assert(s@ =~= s0 + dec_if(start != 0, start as int) + "..∞"@ + step_block_text(step as int, block));
            },
        }
    }

    /// The axis as text: `3`, `1..5;2`, `..∞(B)` and the like.
    pub fn to_string(self) -> (r: String)
        ensures
            r@ == slice_text(self),
    {
        let mut s = String::new();
        self.push_text(&mut s);
        s
    }
}

impl Hyperslab {
    /// The hyperslab as text: a tuple of its axes, such as `(1, 2..∞;3)`.
    pub fn to_string(&self) -> (r: String)
        ensures
            r@ == hyperslab_text(self@),
    {
        let mut s = string_of("(");
        let n = self.dims.len();
        let mut i: usize = 0;
        while i < n
            invariant
                n == self@.len(),
                i <= n,
                s@ == "("@ + join_slices(self@, i as nat),
            decreases n - i,
        {
            let ghost before = s@;
            if i != 0 {
                push_str(&mut s, ", ");
            }
            self.dims[i].push_text(&mut s);
            proof {
                if i == 0 {
                    assert(s@ =~= "("@ + join_slices(self@, 1));
                } else {
                    assert(s@ =~= "("@ + join_slices(self@, (i + 1) as nat));
                }
            }
            i = i + 1;
        }
        if n == 1 {
            push_str(&mut s, ",");
        }
        push_str(&mut s, ")");
        proof {
            if n == 1 {
                assert(s@ =~= hyperslab_text(self@));
            } else {
                assert(s@ =~= hyperslab_text(self@));
            }
        }
        s
    }
}

impl Selection {
    /// The selection as text: `..` for everything, `[]` for nothing, the
    /// table of points, or the hyperslab.
    pub fn to_string(&self) -> (r: String)
        requires
            selection_wf(*self),
        ensures
            r@ == selection_text(self@),
    {
        match self {
            Selection::All => string_of(".."),
            Selection::Points(p) => {
                if p.is_empty_table() {
                    string_of("[]")
                } else {
                    p.to_string()
                }
            },
            Selection::Hyperslab(h) => h.to_string(),
        }
    }
}

} // verus!

verus! {

/// A selection whose output shape can be had resolves against the same
/// shape.
pub proof fn lemma_out_shape_ok_into_raw_ok(s: SelectionView, shape: Seq<usize>)
    requires
        spec_out_shape(s, shape) is Ok,
    ensures
        spec_sel_into_raw(s, shape) is Ok,
{
}

} // verus!

//! Shapes given as tuples, integers or vectors, and simple dataspaces made
//! from them.

use vstd::prelude::*;
use crate::text::{dec_nat, push_str, push_usize, string_of};

verus! {

/// The number of elements of a shape: the product of its sizes, and 0 for
/// a shape without axes.
pub open spec fn shape_size(d: Seq<usize>) -> int {
    if d.len() == 0 {
        0
    } else {
        shape_product(d, d.len())
    }
}

/// The product of the first `n` sizes.
pub open spec fn shape_product(d: Seq<usize>, n: nat) -> int
    decreases n,
{
    if n == 0 {
        1
    } else {
        shape_product(d, (n - 1) as nat) * d[n - 1]
    }
}

/// Every partial product of the sizes fits in a `usize`.
pub open spec fn products_fit(d: Seq<usize>) -> bool {
    forall|k: nat| k <= d.len() ==> #[trigger] shape_product(d, k) <= usize::MAX
}

/// The number of elements of a shape given by its sizes.
pub fn size_of_dims(d: &[usize]) -> (r: usize)
    requires
        products_fit(d@),
    ensures
        r == shape_size(d@),
{
    if d.len() == 0 {
        return 0;
    }
    let mut acc: usize = 1;
    let mut i: usize = 0;
    while i < d.len()
        invariant
            i <= d@.len(),
            acc == shape_product(d@, i as nat),
            products_fit(d@),
        decreases d@.len() - i,
    {
        assert(shape_product(d@, (i + 1) as nat) <= usize::MAX);
        assert(shape_product(d@, (i + 1) as nat) == acc * d[i as int]);
        acc = acc * d[i];
        i = i + 1;
    }
    acc
}

/// Shapes: a number of axes and a size along each.
pub trait Dimension {
    /// The sizes along the axes.
    spec fn spec_dims(&self) -> Seq<usize>;

    fn ndim(&self) -> (r: usize)
        ensures
            r == self.spec_dims().len();

    fn dims(&self) -> (r: Vec<usize>)
        ensures
            r@ == self.spec_dims();

    /// The number of elements (0 for a shape without axes).
    fn size(&self) -> (r: usize)
        requires
            products_fit(self.spec_dims()),
        ensures
            r == shape_size(self.spec_dims());
}

impl<'a, T: Dimension> Dimension for &'a T {
    open spec fn spec_dims(&self) -> Seq<usize> {
        (**self).spec_dims()
    }

    fn ndim(&self) -> (r: usize) {
        (**self).ndim()
    }

    fn dims(&self) -> (r: Vec<usize>) {
        (**self).dims()
    }

    fn size(&self) -> (r: usize) {
        (**self).size()
    }
}

impl Dimension for Vec<usize> {
    open spec fn spec_dims(&self) -> Seq<usize> {
        self@
    }

    fn ndim(&self) -> (r: usize) {
        self.len()
    }

    fn dims(&self) -> (r: Vec<usize>) {
        self.clone()
    }

    fn size(&self) -> (r: usize) {
        size_of_dims(self.as_slice())
    }
}

impl Dimension for () {
    open spec fn spec_dims(&self) -> Seq<usize> {
        Seq::empty()
    }

    fn ndim(&self) -> (r: usize) {
        0
    }

    fn dims(&self) -> (r: Vec<usize>) {
        Vec::new()
    }

    fn size(&self) -> (r: usize) {
        0
    }
}

impl Dimension for usize {
    open spec fn spec_dims(&self) -> Seq<usize> {
        seq![*self]
    }

    fn ndim(&self) -> (r: usize) {
        1
    }

    fn dims(&self) -> (r: Vec<usize>) {
        let mut v: Vec<usize> = Vec::new();
        v.push(*self);
        assert(v@ =~= seq![*self]);
        v
    }

    fn size(&self) -> (r: usize) {
        assert(shape_product(seq![*self], 0) == 1);
        assert(shape_product(seq![*self], 1) == *self);
        *self
    }
}

impl Dimension for (usize,) {
    open spec fn spec_dims(&self) -> Seq<usize> {
        seq![self.0]
    }

    fn ndim(&self) -> (r: usize) {
        1
    }

    fn dims(&self) -> (r: Vec<usize>) {
        let mut v: Vec<usize> = Vec::new();
        v.push(self.0);
        assert(v@ =~= seq![self.0]);
        v
    }

    fn size(&self) -> (r: usize) {
        let d = self.dims();
        size_of_dims(d.as_slice())
    }
}

impl Dimension for (usize, usize) {
    open spec fn spec_dims(&self) -> Seq<usize> {
        seq![self.0, self.1]
    }

    fn ndim(&self) -> (r: usize) {
        2
    }

    fn dims(&self) -> (r: Vec<usize>) {
        let mut v: Vec<usize> = Vec::new();
        v.push(self.0);
        v.push(self.1);
        assert(v@ =~= seq![self.0, self.1]);
        v
    }

    fn size(&self) -> (r: usize) {
        let d = self.dims();
        size_of_dims(d.as_slice())
    }
}

impl Dimension for (usize, usize, usize) {
    open spec fn spec_dims(&self) -> Seq<usize> {
        seq![self.0, self.1, self.2]
    }

    fn ndim(&self) -> (r: usize) {
        3
    }

    fn dims(&self) -> (r: Vec<usize>) {
        let mut v: Vec<usize> = Vec::new();
        v.push(self.0);
        v.push(self.1);
        v.push(self.2);
        assert(v@ =~= seq![self.0, self.1, self.2]);
        v
    }

    fn size(&self) -> (r: usize) {
        let d = self.dims();
        size_of_dims(d.as_slice())
    }
}

impl Dimension for (usize, usize, usize, usize) {
    open spec fn spec_dims(&self) -> Seq<usize> {
        seq![self.0, self.1, self.2, self.3]
    }

    fn ndim(&self) -> (r: usize) {
        4
    }

    fn dims(&self) -> (r: Vec<usize>) {
        let mut v: Vec<usize> = Vec::new();
        v.push(self.0);
        v.push(self.1);
        v.push(self.2);
        v.push(self.3);
        assert(v@ =~= seq![self.0, self.1, self.2, self.3]);
        v
    }

    fn size(&self) -> (r: usize) {
        let d = self.dims();
        size_of_dims(d.as_slice())
    }
}

/// The sizes of a shape shown as a tuple, such as `(1, 2)` or `(3,)`.
pub open spec fn dims_text(d: Seq<usize>) -> Seq<char> {
    "("@ + join_dims(d, d.len()) + (if d.len() == 1 { ","@ } else { Seq::empty() }) + ")"@
}

/// The first `n` sizes separated by `, `.
pub open spec fn join_dims(d: Seq<usize>, n: nat) -> Seq<char>
    decreases n,
{
    if n == 0 {
        Seq::empty()
    } else if n == 1 {
        dec_nat(d[0] as nat)
    } else {
        join_dims(d, (n - 1) as nat) + ", "@ + dec_nat(d[n - 1] as nat)
    }
}

/// A simple dataspace whose every axis can grow without bound.
#[derive(Clone, Debug, PartialEq, Eq)]
pub struct Dataspace {
    dims: Vec<usize>,
}

impl Dataspace {
    /// A dataspace of the given shape.
    pub fn new<D: Dimension>(d: D) -> (r: Self)
        ensures
            r.spec_dims() == d.spec_dims(),
            r@.dims == d.spec_dims(),
    {
        Dataspace { dims: d.dims() }
    }

    /// The dataspace as text: `<HDF5 dataspace: (1, 2)>`.
    pub fn to_string(&self) -> (r: String)
        ensures
            r@ == "<HDF5 dataspace: "@ + dims_text(self@.spec_dims_of()) + ">"@,
    {
        let mut s = string_of("(");
        let n = self.dims.len();
        let mut i: usize = 0;
        while i < n
            invariant
                n == self.dims@.len(),
                i <= n,
                s@ == "("@ + join_dims(self.dims@, i as nat),
            decreases n - i,
        {
            if i != 0 {
                push_str(&mut s, ", ");
            }
            push_usize(&mut s, self.dims[i]);
            proof {
                if i == 0 {
                    assert(s@ =~= "("@ + join_dims(self.dims@, 1));
                } else {
                    assert(s@ =~= "("@ + join_dims(self.dims@, (i + 1) as nat));
                }
            }
            i = i + 1;
        }
        if n == 1 {
            push_str(&mut s, ",");
        }
        push_str(&mut s, ")");
        assert(s@ =~= dims_text(self.dims@));
        let mut out = string_of("<HDF5 dataspace: ");
        push_str(&mut out, s.as_str());
        push_str(&mut out, ">");
        out
    }
}

/// Abstract value of a simple dataspace: its sizes.
pub struct DataspaceView {
    pub dims: Seq<usize>,
}

impl DataspaceView {
    pub open spec fn spec_dims_of(self) -> Seq<usize> {
        self.dims
    }
}

impl View for Dataspace {
    type V = DataspaceView;

    closed spec fn view(&self) -> DataspaceView {
        DataspaceView { dims: self.dims@ }
    }
}

impl Dimension for Dataspace {
    closed spec fn spec_dims(&self) -> Seq<usize> {
        self.dims@
    }

    fn ndim(&self) -> (r: usize) {
        self.dims.len()
    }

    fn dims(&self) -> (r: Vec<usize>) {
        self.dims.clone()
    }

    fn size(&self) -> (r: usize) {
        size_of_dims(self.dims.as_slice())
    }
}

/// The sizes a dataspace shows are those it was made with.
pub proof fn dataspace_dims_view(d: Dataspace)
    ensures
        d@.spec_dims_of() == d.spec_dims(),
{
}

} // verus!

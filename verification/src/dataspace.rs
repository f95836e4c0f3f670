//! Dataspaces: the extents of a dataset (null, scalar, or a list of current
//! and maximum sizes) and how they are shown.

use vstd::prelude::*;
use crate::error::{Error, ErrorView};
use crate::text::{dec_int, dec_nat, push_i64, push_str, push_usize, string_of};

verus! {

/// One axis of a simple dataspace: its current size and its maximum size
/// (`None` for unlimited).
#[derive(Clone, Copy, Debug, PartialEq, Eq)]
pub struct Extent {
    pub dim: usize,
    pub max: Option<usize>,
}

impl Extent {
    pub fn new(dim: usize, max: Option<usize>) -> (r: Self)
        ensures
            r == (Extent { dim, max }),
    {
        Extent { dim, max }
    }

    /// An axis that cannot grow.
    pub fn fixed(dim: usize) -> (r: Self)
        ensures
            r == (Extent { dim, max: Some(dim) }),
    {
        Extent { dim, max: Some(dim) }
    }

    /// An axis that can grow without bound.
    pub fn resizable(dim: usize) -> (r: Self)
        ensures
            r == (Extent { dim, max: None }),
    {
        Extent { dim, max: None }
    }
}

/// How one axis is shown: `5` when fixed, `5..` when unlimited, `5..=10`
/// when it can grow up to a bound.
pub open spec fn extent_text(e: Extent) -> Seq<char> {
    match e.max {
        Some(m) => if m == e.dim {
            dec_nat(e.dim as nat)
        } else {
            dec_nat(e.dim as nat) + "..="@ + dec_nat(m as nat)
        },
        None => dec_nat(e.dim as nat) + ".."@,
    }
}

/// The extents of a dataspace.
#[derive(Clone, Debug, PartialEq, Eq)]
pub enum Extents {
    /// No data at all.
    Null,
    /// A single element.
    Scalar,
    /// An array with the given axes.
    Simple(Vec<Extent>),
}

/// Abstract value of [`Extents`].
pub enum ExtentsView {
    Null,
    Scalar,
    Simple(Seq<Extent>),
}

impl View for Extents {
    type V = ExtentsView;

    open spec fn view(&self) -> ExtentsView {
        match self {
            Extents::Null => ExtentsView::Null,
            Extents::Scalar => ExtentsView::Scalar,
            Extents::Simple(v) => ExtentsView::Simple(v@),
        }
    }
}

/// The first `n` axes shown and separated by `, `.
pub open spec fn join_extents(e: Seq<Extent>, n: nat) -> Seq<char>
    decreases n,
{
    if n == 0 {
        Seq::empty()
    } else if n == 1 {
        extent_text(e[0])
    } else {
        join_extents(e, (n - 1) as nat) + ", "@ + extent_text(e[n - 1])
    }
}

/// How extents are shown: `null`, `scalar`, or a tuple of the axes.
pub open spec fn extents_text(e: ExtentsView) -> Seq<char> {
    match e {
        ExtentsView::Null => "null"@,
        ExtentsView::Scalar => "scalar"@,
        ExtentsView::Simple(v) => "("@ + join_extents(v, v.len()) + (if v.len() == 1 { ","@ } else { Seq::empty() }) + ")"@,
    }
}

/// The current sizes of the axes.
pub open spec fn spec_shape(e: ExtentsView) -> Seq<usize> {
    match e {
        ExtentsView::Simple(v) => Seq::new(v.len(), |i: int| v[i].dim),
        _ => Seq::empty(),
    }
}

/// The maximum sizes of the axes.
pub open spec fn spec_maxdims(e: ExtentsView) -> Seq<Option<usize>> {
    match e {
        ExtentsView::Simple(v) => Seq::new(v.len(), |i: int| v[i].max),
        _ => Seq::empty(),
    }
}

fn push_extent(s: &mut String, e: Extent)
    ensures
        final(s)@ == old(s)@ + extent_text(e),
{
    let ghost s0 = s@;
    push_usize(s, e.dim);
    match e.max {
        Some(m) => {
            if m != e.dim {
                push_str(s, "..=");
                push_usize(s, m);
            }
        },
        None => {
            push_str(s, "..");
        },
    }
    assert(s@ =~= s0 + extent_text(e));
}

impl Extents {
    /// A simple dataspace whose axes cannot grow.
    pub fn fixed(dims: &[usize]) -> (r: Self)
        ensures
            r@ matches ExtentsView::Simple(v) && v.len() == dims@.len() && forall|i: int|
                0 <= i < dims@.len() ==> #[trigger] v[i] == (Extent { dim: dims@[i], max: Some(dims@[i]) }),
    {
        let mut v: Vec<Extent> = Vec::new();
        let mut i: usize = 0;
        while i < dims.len()
            invariant
                i <= dims@.len(),
                v@.len() == i,
                forall|k: int| 0 <= k < i ==> #[trigger] v@[k] == (Extent { dim: dims@[k], max: Some(dims@[k]) }),
            decreases dims@.len() - i,
        {
            v.push(Extent::fixed(dims[i]));
            i = i + 1;
        }
        Extents::Simple(v)
    }

    /// The extents as text, such as `(5, 6..=10, 7..)`.
    pub fn to_string(&self) -> (r: String)
        ensures
            r@ == extents_text(self@),
    {
        match self {
            Extents::Null => string_of("null"),
            Extents::Scalar => string_of("scalar"),
            Extents::Simple(v) => {
                let mut s = string_of("(");
                let n = v.len();
                let mut i: usize = 0;
                while i < n
                    invariant
                        n == v@.len(),
                        i <= n,
                        s@ == "("@ + join_extents(v@, i as nat),
                    decreases n - i,
                {
                    if i != 0 {
                        push_str(&mut s, ", ");
                    }
                    push_extent(&mut s, v[i]);
                    proof {
                        if i == 0 {
                            assert(s@ =~= "("@ + join_extents(v@, 1));
                        } else {
                            assert(s@ =~= "("@ + join_extents(v@, (i + 1) as nat));
                        }
                    }
                    i = i + 1;
                }
                if n == 1 {
                    push_str(&mut s, ",");
                }
                push_str(&mut s, ")");
                assert(s@ =~= extents_text(self@));
                s
            },
        }
    }
}

/// A dataspace: the extents of a dataset or an attribute.
#[derive(Clone, Debug, PartialEq, Eq)]
pub struct Dataspace {
    extents: Extents,
}

impl View for Dataspace {
    type V = ExtentsView;

    closed spec fn view(&self) -> ExtentsView {
        self.extents@
    }
}

impl Dataspace {
    /// A dataspace with the given extents.
    pub fn try_new(extents: Extents) -> (r: Result<Self, crate::error::Error>)
        ensures
            r matches Ok(d) && d@ == extents@,
    {
        Ok(Dataspace { extents })
    }

    /// The extents.
    pub fn extents(&self) -> (r: Extents)
        ensures
            r@ == self@,
    {
        match &self.extents {
            Extents::Null => Extents::Null,
            Extents::Scalar => Extents::Scalar,
            Extents::Simple(v) => {
                let mut w: Vec<Extent> = Vec::new();
                let mut i: usize = 0;
                while i < v.len()
                    invariant
                        i <= v@.len(),
                        w@ == v@.take(i as int),
                    decreases v@.len() - i,
                {
                    w.push(v[i]);
                    i = i + 1;
                    assert(w@ =~= v@.take(i as int));
                }
                assert(v@.take(i as int) =~= v@);
                Extents::Simple(w)
            },
        }
    }

    /// The number of axes.
    pub fn ndim(&self) -> (r: usize)
        ensures
            r == spec_shape(self@).len(),
    {
        match &self.extents {
            Extents::Simple(v) => v.len(),
            _ => 0,
        }
    }

    /// The current sizes of the axes.
    pub fn shape(&self) -> (r: Vec<usize>)
        ensures
            r@ == spec_shape(self@),
    {
        let mut out: Vec<usize> = Vec::new();
        if let Extents::Simple(v) = &self.extents {
            let mut i: usize = 0;
            while i < v.len()
                invariant
                    i <= v@.len(),
                    out@ == Seq::new(i as nat, |k: int| v@[k].dim),
                decreases v@.len() - i,
            {
                out.push(v[i].dim);
                i = i + 1;
                assert(out@ =~= Seq::new(i as nat, |k: int| v@[k].dim));
            }
        } else {
            assert(out@ =~= spec_shape(self@));
        }
        out
    }

    /// The maximum sizes of the axes (`None` for unlimited).
    pub fn maxdims(&self) -> (r: Vec<Option<usize>>)
        ensures
            r@ == spec_maxdims(self@),
    {
        let mut out: Vec<Option<usize>> = Vec::new();
        if let Extents::Simple(v) = &self.extents {
            let mut i: usize = 0;
            while i < v.len()
                invariant
                    i <= v@.len(),
                    out@ == Seq::new(i as nat, |k: int| v@[k].max),
                decreases v@.len() - i,
            {
                out.push(v[i].max);
                i = i + 1;
                assert(out@ =~= Seq::new(i as nat, |k: int| v@[k].max));
            }
        } else {
            assert(out@ =~= spec_maxdims(self@));
        }
        out
    }

    /// Whether some axis can grow without bound.
    pub fn is_resizable(&self) -> (r: bool)
        ensures
            r == exists|i: int| 0 <= i < spec_maxdims(self@).len() && spec_maxdims(self@)[i] is None,
    {
        let m = self.maxdims();
        let mut i: usize = 0;
        while i < m.len()
            invariant
                i <= m@.len(),
                m@ == spec_maxdims(self@),
                forall|k: int| 0 <= k < i ==> m@[k] is Some,
            decreases m@.len() - i,
        {
            if m[i].is_none() {
                return true;
            }
            i = i + 1;
        }
        false
    }

    /// The number of elements: none for a null dataspace, one for a scalar,
    /// the product of the sizes for a simple one.
    pub fn size(&self) -> (r: usize)
        requires
            crate::space::products_fit(spec_shape(self@)),
        ensures
            r == match self@ {
                ExtentsView::Null => 0,
                ExtentsView::Scalar => 1,
                ExtentsView::Simple(_) => crate::space::shape_product(spec_shape(self@), spec_shape(self@).len()),
            },
    {
        match &self.extents {
            Extents::Null => 0,
            Extents::Scalar => 1,
            Extents::Simple(v) => {
                let dims = self.shape();
                let mut acc: usize = 1;
                let mut i: usize = 0;
                while i < dims.len()
                    invariant
                        i <= dims@.len(),
                        dims@ == spec_shape(self@),
                        crate::space::products_fit(dims@),
                        acc == crate::space::shape_product(dims@, i as nat),
                    decreases dims@.len() - i,
                {
                    assert(crate::space::shape_product(dims@, (i + 1) as nat) <= usize::MAX);
                    acc = acc * dims[i];
                    i = i + 1;
                }
                acc
            },
        }
    }

    pub fn is_null(&self) -> (r: bool)
        ensures
            r == (self@ is Null),
    {
        match &self.extents {
            Extents::Null => true,
            _ => false,
        }
    }

    pub fn is_scalar(&self) -> (r: bool)
        ensures
            r == (self@ is Scalar),
    {
        match &self.extents {
            Extents::Scalar => true,
            _ => false,
        }
    }

    pub fn is_simple(&self) -> (r: bool)
        ensures
            r == (self@ is Simple),
    {
        match &self.extents {
            Extents::Simple(_) => true,
            _ => false,
        }
    }

    /// How the dataspace is shown: `<HDF5 dataspace: ...>` around its
    /// extents.
    pub fn to_string(&self) -> (r: String)
        ensures
            r@ == "<HDF5 dataspace: "@ + extents_text(self@) + ">"@,
    {
        let mut s = string_of("<HDF5 dataspace: ");
        let e = self.extents.to_string();
        push_str(&mut s, e.as_str());
        push_str(&mut s, ">");
        s
    }
}

/// The maximum size the library gives an axis that can grow without bound.
pub const SPACE_UNLIMITED: u64 = 0xffff_ffff_ffff_ffff;
/// Dataspace class code of a scalar.
pub const SPACE_SCALAR: i32 = 0;
/// Dataspace class code of a simple dataspace.
pub const SPACE_SIMPLE: i32 = 1;
/// Dataspace class code of a null dataspace.
pub const SPACE_NULL: i32 = 2;

/// The library's code for the class of some extents.
pub open spec fn spec_space_class(e: ExtentsView) -> i32 {
    match e {
        ExtentsView::Null => SPACE_NULL,
        ExtentsView::Scalar => SPACE_SCALAR,
        ExtentsView::Simple(_) => SPACE_SIMPLE,
    }
}

/// The maximum size of an axis, as the library takes it.
pub open spec fn spec_raw_max(e: Extent) -> u64 {
    match e.max {
        Some(m) => m as u64,
        None => SPACE_UNLIMITED,
    }
}

/// The axis that a current size and a maximum size from the library stand
/// for.
pub open spec fn spec_extent_of_raw(dim: u64, max: u64) -> Extent {
    Extent { dim: dim as usize, max: if max == SPACE_UNLIMITED { None } else { Some(max as usize) } }
}

/// The extents that a dataspace class code and the sizes the library gives
/// stand for, or the message for an unknown class.
pub open spec fn spec_extents_of_raw(class: i32, dims: Seq<u64>, maxdims: Seq<u64>) -> Result<ExtentsView, Seq<char>> {
    if class == SPACE_NULL {
        Ok(ExtentsView::Null)
    } else if class == SPACE_SCALAR {
        Ok(ExtentsView::Scalar)
    } else if class == SPACE_SIMPLE {
        Ok(ExtentsView::Simple(Seq::new(dims.len(), |i: int| spec_extent_of_raw(dims[i], maxdims[i]))))
    } else {
        Err("Invalid extents type: "@ + dec_int(class as int))
    }
}

impl Extents {
    /// The extents as the library takes them: the class code, the current
    /// sizes and the maximum sizes (unlimited as [`SPACE_UNLIMITED`]).
    pub fn to_raw(&self) -> (r: (i32, Vec<u64>, Vec<u64>))
        ensures
            r.0 == spec_space_class(self@),
            r.1@ == Seq::new(spec_shape(self@).len(), |i: int| spec_shape(self@)[i] as u64),
            r.2@.len() == r.1@.len(),
            self@ matches ExtentsView::Simple(v) ==> forall|i: int| 0 <= i < v.len() ==> #[trigger] r.2@[i] == spec_raw_max(v[i]),
    {
        let mut dims: Vec<u64> = Vec::new();
        let mut maxdims: Vec<u64> = Vec::new();
        match self {
            Extents::Null => (SPACE_NULL, dims, maxdims),
            Extents::Scalar => (SPACE_SCALAR, dims, maxdims),
            Extents::Simple(v) => {
                let mut i: usize = 0;
                while i < v.len()
                    invariant
                        i <= v@.len(),
                        self@ == ExtentsView::Simple(v@),
                        dims@ == Seq::new(i as nat, |k: int| v@[k].dim as u64),
                        maxdims@.len() == i,
                        forall|k: int| 0 <= k < i ==> #[trigger] maxdims@[k] == spec_raw_max(v@[k]),
                    decreases v@.len() - i,
                {
                    dims.push(v[i].dim as u64);
                    let m: u64 = match v[i].max {
                        Some(m) => m as u64,
                        None => SPACE_UNLIMITED,
                    };
                    maxdims.push(m);
                    i = i + 1;
                    assert(dims@ =~= Seq::new(i as nat, |k: int| v@[k].dim as u64));
                }
                assert(dims@ =~= Seq::new(spec_shape(self@).len(), |k: int| spec_shape(self@)[k] as u64));
                (SPACE_SIMPLE, dims, maxdims)
            },
        }
    }

    /// The extents that a dataspace class code and the current and maximum
    /// sizes the library gives stand for.
    pub fn from_raw(class: i32, dims: &[u64], maxdims: &[u64]) -> (r: Result<Self, Error>)
        requires
            dims@.len() == maxdims@.len(),
        ensures
            match (r, spec_extents_of_raw(class, dims@, maxdims@)) {
                (Ok(e), Ok(v)) => e@ == v,
                (Err(e), Err(m)) => e@ == ErrorView::Internal(m),
                _ => false,
            },
    {
        if class == SPACE_NULL {
            Ok(Extents::Null)
        } else if class == SPACE_SCALAR {
            Ok(Extents::Scalar)
        } else if class == SPACE_SIMPLE {
            let mut v: Vec<Extent> = Vec::new();
            let mut i: usize = 0;
            while i < dims.len()
                invariant
                    i <= dims@.len() == maxdims@.len(),
                    v@ == Seq::new(i as nat, |k: int| spec_extent_of_raw(dims@[k], maxdims@[k])),
                decreases dims@.len() - i,
            {
                let max = if maxdims[i] == SPACE_UNLIMITED { None } else { Some(maxdims[i] as usize) };
                v.push(Extent { dim: dims[i] as usize, max });
                i = i + 1;
                assert(v@ =~= Seq::new(i as nat, |k: int| spec_extent_of_raw(dims@[k], maxdims@[k])));
            }
            Ok(Extents::Simple(v))
        } else {
            let mut s = string_of("Invalid extents type: ");
            push_i64(&mut s, class as i64);
            Err(Error::Internal(s))
        }
    }
}

/// Extents read back as themselves from what the library takes, unless a
/// maximum size coincides with the library's mark of an unlimited axis.
pub proof fn extents_raw_roundtrip(e: ExtentsView)
    requires
        e matches ExtentsView::Simple(v) ==> forall|k: int| 0 <= k < v.len() ==> (#[trigger] v[k]).max != Some((SPACE_UNLIMITED as usize)),
    ensures
        ({
            let dims = Seq::new(spec_shape(e).len(), |i: int| spec_shape(e)[i] as u64);
            let maxdims = match e {
                ExtentsView::Simple(v) => Seq::new(v.len(), |i: int| spec_raw_max(v[i])),
                _ => Seq::empty(),
            };
            spec_extents_of_raw(spec_space_class(e), dims, maxdims) == Ok::<ExtentsView, Seq<char>>(e)
        }),
{
    match e {
        ExtentsView::Simple(v) => {
            let dims = Seq::new(spec_shape(e).len(), |i: int| spec_shape(e)[i] as u64);
            let maxdims = Seq::new(v.len(), |i: int| spec_raw_max(v[i]));
            let back = Seq::new(dims.len(), |i: int| spec_extent_of_raw(dims[i], maxdims[i]));
            assert forall|i: int| 0 <= i < v.len() implies #[trigger] back[i] == v[i] by {
                match v[i].max {
                    Some(m) => {
                        assert(m != SPACE_UNLIMITED as usize);
                        assert((m as u64) as usize == m);
                        assert(m as u64 != SPACE_UNLIMITED) by (bit_vector)
                            requires
                                m != SPACE_UNLIMITED as usize,
                        ;
                    },
                    None => {},
                }
            }
            assert(back =~= v);
        },
        _ => {},
    }
}

/// The library's dataspace class codes: scalar 0, simple 1, null 2; reading
/// one of them gives extents of that class, and any other code is refused.
pub proof fn space_class_codes_law(e: ExtentsView, class: i32, dims: Seq<u64>, maxdims: Seq<u64>)
    ensures
        spec_space_class(e) == match e {
            ExtentsView::Scalar => 0i32,
            ExtentsView::Simple(_) => 1i32,
            ExtentsView::Null => 2i32,
        },
        class == 0 ==> spec_extents_of_raw(class, dims, maxdims) == Ok::<ExtentsView, Seq<char>>(ExtentsView::Scalar),
        class == 1 ==> (spec_extents_of_raw(class, dims, maxdims) matches Ok(ExtentsView::Simple(s)) && s.len() == dims.len()),
        class == 2 ==> spec_extents_of_raw(class, dims, maxdims) == Ok::<ExtentsView, Seq<char>>(ExtentsView::Null),
        !(0 <= class <= 2) ==> spec_extents_of_raw(class, dims, maxdims) is Err,
{
}

} // verus!

//! Reading and writing datasets and attributes: the conversions allowed
//! between memory and file types, and the checks and plans of a transfer.

use vstd::prelude::*;
use crate::error::Error;
use crate::selection::{Selection, SelectionView, RawSelection, spec_out_shape, spec_sel_into_raw, selection_wf};
use crate::text::{dec_nat, push_str, push_usize, string_of};

verus! {

/// How a value is converted between two datatypes, from cheapest to
/// dearest.
#[derive(Clone, Copy, Debug, PartialEq, Eq)]
pub enum Conversion {
    NoOp,
    Hard,
    Soft,
}

/// The rank of a conversion: no-op below hard below soft.
pub open spec fn conv_rank(c: Conversion) -> nat {
    match c {
        Conversion::NoOp => 1,
        Conversion::Hard => 2,
        Conversion::Soft => 3,
    }
}

/// The name of a conversion.
pub open spec fn conv_name(c: Conversion) -> Seq<char> {
    match c {
        Conversion::NoOp => "no-op"@,
        Conversion::Hard => "hard"@,
        Conversion::Soft => "soft"@,
    }
}

impl Default for Conversion {
    fn default() -> (r: Self)
        ensures
            r == Conversion::NoOp,
    {
        Conversion::NoOp
    }
}

impl Conversion {
    fn rank(self) -> (r: u8)
        ensures
            r == conv_rank(self),
    {
        match self {
            Conversion::NoOp => 1,
            Conversion::Hard => 2,
            Conversion::Soft => 3,
        }
    }

    /// The name of the conversion: `no-op`, `hard` or `soft`.
    pub fn to_string(self) -> (r: String)
        ensures
            r@ == conv_name(self),
    {
        match self {
            Conversion::NoOp => string_of("no-op"),
            Conversion::Hard => string_of("hard"),
            Conversion::Soft => string_of("soft"),
        }
    }

    /// The conversion path between two datatypes, from what the library
    /// reports: whether converting goes through the no-op path, and else what
    /// asking whether the conversion is compiled gave (positive: compiled,
    /// zero: not compiled, negative: no path).
    pub fn from_path(is_noop: bool, compiled: i32) -> (r: Option<Self>)
        ensures
            is_noop ==> r == Some(Conversion::NoOp),
            !is_noop && compiled == 0 ==> r == Some(Conversion::Soft),
            !is_noop && compiled > 0 ==> r == Some(Conversion::Hard),
            !is_noop && compiled < 0 ==> r is None,
    {
        if is_noop {
            Some(Conversion::NoOp)
        } else if compiled == 0 {
            Some(Conversion::Soft)
        } else if compiled > 0 {
            Some(Conversion::Hard)
        } else {
            None
        }
    }
}

/// What checking a conversion path against the dearest conversion allowed
/// gives.
pub open spec fn spec_ensure_convertible(path: Option<Conversion>, required: Conversion) -> Result<(), Seq<char>> {
    match path {
        None => Err("no conversion paths found"@),
        Some(conv) => if conv_rank(conv) > conv_rank(required) {
            Err(conv_name(required) + " conversion path required; available: "@ + conv_name(conv) + " conversion"@)
        } else {
            Ok(())
        },
    }
}

/// A result carrying no value agrees with an abstract outcome.
pub open spec fn unit_agrees(r: Result<(), Error>, s: Result<(), Seq<char>>) -> bool {
    match (r, s) {
        (Ok(_), Ok(_)) => true,
        (Err(Error::Internal(m)), Err(t)) => m@ == t,
        _ => false,
    }
}

/// Checks that the conversion path between two datatypes (`None` when there
/// is none) is no dearer than `required`.
pub fn ensure_convertible(path: Option<Conversion>, required: Conversion) -> (r: Result<(), Error>)
    ensures
        unit_agrees(r, spec_ensure_convertible(path, required)),
{
    match path {
        None => Err(Error::Internal(string_of("no conversion paths found"))),
        Some(conv) => {
            if conv.rank() > required.rank() {
                let mut s = required.to_string();
                push_str(&mut s, " conversion path required; available: ");
                let c = conv.to_string();
                push_str(&mut s, c.as_str());
                push_str(&mut s, " conversion");
                Err(Error::Internal(s))
            } else {
                Ok(())
            }
        },
    }
}

/// The product of the sizes of a shape (1 for a shape without axes).
pub open spec fn shape_product(s: Seq<usize>, n: nat) -> int
    decreases n,
{
    if n == 0 {
        1
    } else {
        shape_product(s, (n - 1) as nat) * s[n - 1]
    }
}

/// Every partial product of the sizes fits in a `usize`.
pub open spec fn product_fits(s: Seq<usize>) -> bool {
    forall|k: nat| k <= s.len() ==> #[trigger] shape_product(s, k) <= usize::MAX
}

fn product(s: &[usize]) -> (r: usize)
    requires
        product_fits(s@),
    ensures
        r == shape_product(s@, s@.len()),
{
    let mut acc: usize = 1;
    let mut i: usize = 0;
    while i < s.len()
        invariant
            i <= s@.len(),
            acc == shape_product(s@, i as nat),
            product_fits(s@),
        decreases s@.len() - i,
    {
        assert(shape_product(s@, (i + 1) as nat) <= usize::MAX);
        acc = acc * s[i];
        i = i + 1;
    }
    acc
}

/// A list of sizes as `[1, 2]`.
pub open spec fn list_text(s: Seq<usize>) -> Seq<char> {
    "["@ + join_sizes(s, s.len()) + "]"@
}

/// The first `n` sizes separated by `, `.
pub open spec fn join_sizes(s: Seq<usize>, n: nat) -> Seq<char>
    decreases n,
{
    if n == 0 {
        Seq::empty()
    } else if n == 1 {
        dec_nat(s[0] as nat)
    } else {
        join_sizes(s, (n - 1) as nat) + ", "@ + dec_nat(s[n - 1] as nat)
    }
}

/// Appends sizes as a list, such as `[1, 2]`.
pub(crate) fn push_list(out: &mut String, s: &[usize])
    ensures
        final(out)@ == old(out)@ + list_text(s@),
{
    let ghost o = out@;
    push_str(out, "[");
    let mut i: usize = 0;
    while i < s.len()
        invariant
            i <= s@.len(),
            out@ == o + "["@ + join_sizes(s@, i as nat),
        decreases s@.len() - i,
    {
        if i != 0 {
            push_str(out, ", ");
        }
        push_usize(out, s[i]);
        proof {
            if i == 0 {
                assert(out@ =~= o + "["@ + join_sizes(s@, 1));
            } else {
                assert(out@ =~= o + "["@ + join_sizes(s@, (i + 1) as nat));
            }
        }
        i = i + 1;
    }
    push_str(out, "]");
    assert(out@ =~= o + list_text(s@));
}

/// How a slice transfer proceeds once its checks have passed.
#[derive(Clone, Debug, PartialEq, Eq)]
pub enum SliceTransfer {
    /// Nothing is selected: nothing to transfer.
    Nothing,
    /// The dataset is scalar: transfer the whole of it.
    Whole,
    /// Transfer the selected elements to or from a memory block of the given
    /// shape.
    Partial(Vec<usize>),
}

/// What a prepared slice transfer holds: the shape of what the selection
/// gives, its number of elements, and the raw selection to apply to the
/// dataset's dataspace.
pub struct SlicePlan {
    pub out_shape: Vec<usize>,
    pub out_size: usize,
    pub raw: RawSelection,
}

/// What preparing a slice transfer gives: attributes cannot be sliced; then
/// the selection's output shape and its raw form against the dataset's shape.
pub open spec fn spec_prepare(is_attr: bool, sel: SelectionView, shape: Seq<usize>) -> Result<Seq<usize>, Seq<char>> {
    if is_attr {
        Err("Slicing cannot be used on attribute datasets"@)
    } else {
        spec_out_shape(sel, shape)
    }
}

/// Prepares reading or writing a selection of a dataset of shape `shape`.
pub fn prepare_slice(is_attr: bool, selection: Selection, shape: &[usize]) -> (r: Result<SlicePlan, Error>)
    requires
        selection_wf(selection),
        spec_out_shape(selection@, shape@) matches Ok(s) ==> product_fits(s),
    ensures
        match (r, spec_prepare(is_attr, selection@, shape@)) {
            (Ok(p), Ok(s)) => p.out_shape@ == s && p.out_size == shape_product(s, s.len())
                && spec_sel_into_raw(selection@, shape@) == Ok::<_, Seq<char>>(p.raw@),
            (Err(Error::Internal(m)), Err(t)) => m@ == t,
            _ => false,
        },
{
    if is_attr {
        return Err(Error::Internal(string_of("Slicing cannot be used on attribute datasets")));
    }
    let out_shape = selection.out_shape(shape)?;
    let out_size = product(out_shape.as_slice());
    proof {
        crate::selection::lemma_out_shape_ok_into_raw_ok(selection@, shape@);
    }
    let raw = match selection.into_raw(shape) {
        Ok(r) => r,
        Err(e) => {
            return Err(e);
        },
    };
    Ok(SlicePlan { out_shape, out_size, raw })
}

/// What checking a prepared slice transfer gives: the memory array's number
/// of axes (when fixed) must match the selection's; otherwise the selected
/// size must match and, for writes, the memory shape too.
pub open spec fn spec_check_slice(ndim: Option<usize>, out_shape: Seq<usize>, out_size: usize, fsize: usize, mem_shape: Option<Seq<usize>>) -> Result<(), Seq<char>> {
    match ndim {
        Some(n) => if n != out_shape.len() {
            Err("Selection ndim ("@ + dec_nat(out_shape.len()) + ") != array ndim ("@ + dec_nat(n as nat) + ")"@)
        } else {
            Ok(())
        },
        None => if out_size != fsize {
            Err("Selected size mismatch: "@ + dec_nat(out_size as nat) + " != "@ + dec_nat(fsize as nat) + " (shouldn't happen)"@)
        } else {
            match mem_shape {
                Some(m) => if m != out_shape {
                    Err("Shape mismatch: memory ("@ + list_text(m) + ") != destination ("@ + list_text(out_shape) + ")"@)
                } else {
                    Ok(())
                },
                None => Ok(()),
            }
        },
    }
}

fn same_sizes(a: &[usize], b: &[usize]) -> (r: bool)
    ensures
        r == (a@ == b@),
{
    if a.len() != b.len() {
        return false;
    }
    let mut i: usize = 0;
    while i < a.len()
        invariant
            a@.len() == b@.len(),
            i <= a@.len(),
            forall|k: int| 0 <= k < i ==> a@[k] == b@[k],
        decreases a@.len() - i,
    {
        if a[i] != b[i] {
            return false;
        }
        i = i + 1;
    }
    assert(a@ =~= b@);
    true
}

/// Checks a prepared slice transfer: `ndim` is the memory array's fixed
/// number of axes, if any; `fsize` the number of elements the library says
/// the selection holds; `mem_shape` the shape of the memory array, for
/// writes.
pub fn check_slice(ndim: Option<usize>, out_shape: &[usize], out_size: usize, fsize: usize, mem_shape: Option<&[usize]>) -> (r: Result<(), Error>)
    ensures
        unit_agrees(r, spec_check_slice(ndim, out_shape@, out_size, fsize, match mem_shape {
            Some(m) => Some(m@),
            None => None,
        })),
{
    match ndim {
        Some(n) => {
            if n != out_shape.len() {
                let mut s = string_of("Selection ndim (");
                push_usize(&mut s, out_shape.len());
                push_str(&mut s, ") != array ndim (");
                push_usize(&mut s, n);
                push_str(&mut s, ")");
                return Err(Error::Internal(s));
            }
            Ok(())
        },
        None => {
            if out_size != fsize {
                let mut s = string_of("Selected size mismatch: ");
                push_usize(&mut s, out_size);
                push_str(&mut s, " != ");
                push_usize(&mut s, fsize);
                push_str(&mut s, " (shouldn't happen)");
                return Err(Error::Internal(s));
            }
            match mem_shape {
                Some(m) => {
                    if !same_sizes(m, out_shape) {
                        let mut s = string_of("Shape mismatch: memory (");
                        push_list(&mut s, m);
                        push_str(&mut s, ") != destination (");
                        push_list(&mut s, out_shape);
                        push_str(&mut s, ")");
                        return Err(Error::Internal(s));
                    }
                    Ok(())
                },
                None => Ok(()),
            }
        },
    }
}

/// How a checked slice transfer proceeds: nothing for an empty selection,
/// the whole dataset when it is scalar, else the selected elements through a
/// memory block of the output shape (which, for writes, must be one
/// contiguous block in standard layout).
pub open spec fn spec_slice_transfer(out_shape: Seq<usize>, out_size: usize, obj_ndim: usize, contiguous: bool) -> Result<Option<Option<Seq<usize>>>, Seq<char>> {
    if out_size == 0 {
        Ok(None)
    } else if obj_ndim == 0 {
        Ok(Some(None))
    } else if !contiguous {
        Err("Input array is not in standard layout or non-contiguous"@)
    } else {
        Ok(Some(Some(out_shape)))
    }
}

/// Decides how a checked slice transfer proceeds; `contiguous` says whether
/// the memory array is in standard layout (always true for reads).
pub fn slice_transfer(out_shape: &[usize], out_size: usize, obj_ndim: usize, contiguous: bool) -> (r: Result<SliceTransfer, Error>)
    ensures
        match (r, spec_slice_transfer(out_shape@, out_size, obj_ndim, contiguous)) {
            (Ok(SliceTransfer::Nothing), Ok(None)) => true,
            (Ok(SliceTransfer::Whole), Ok(Some(None))) => true,
            (Ok(SliceTransfer::Partial(v)), Ok(Some(Some(s)))) => v@ == s,
            (Err(Error::Internal(m)), Err(t)) => m@ == t,
            _ => false,
        },
{
    if out_size == 0 {
        Ok(SliceTransfer::Nothing)
    } else if obj_ndim == 0 {
        Ok(SliceTransfer::Whole)
    } else if !contiguous {
        Err(Error::Internal(string_of("Input array is not in standard layout or non-contiguous")))
    } else {
        let mut v: Vec<usize> = Vec::new();
        let mut i: usize = 0;
        while i < out_shape.len()
            invariant
                i <= out_shape@.len(),
                v@ == out_shape@.take(i as int),
            decreases out_shape@.len() - i,
        {
            v.push(out_shape[i]);
            i = i + 1;
            assert(v@ =~= out_shape@.take(i as int));
        }
        assert(out_shape@.take(i as int) =~= out_shape@);
        Ok(SliceTransfer::Partial(v))
    }
}

/// A reader of a dataset or an attribute: the dearest conversion it allows.
#[derive(Clone, Copy, Debug, PartialEq, Eq)]
pub struct Reader {
    pub conv: Conversion,
}

/// A writer of a dataset or an attribute: the dearest conversion it allows.
#[derive(Clone, Copy, Debug, PartialEq, Eq)]
pub struct Writer {
    pub conv: Conversion,
}

impl Reader {
    /// A reader that allows any conversion.
    pub fn new() -> (r: Self)
        ensures
            r.conv == Conversion::Soft,
    {
        Reader { conv: Conversion::Soft }
    }

    /// The reader with another dearest conversion.
    pub fn conversion(self, conv: Conversion) -> (r: Self)
        ensures
            r.conv == conv,
    {
        Reader { conv }
    }

    /// The reader allowing no conversion.
    pub fn no_convert(self) -> (r: Self)
        ensures
            r.conv == Conversion::NoOp,
    {
        Reader { conv: Conversion::NoOp }
    }

    /// Checks that the file type converts to the memory type within the
    /// allowed conversion; `path` is the conversion path the library found.
    pub fn check_conversion(&self, path: Option<Conversion>) -> (r: Result<(), Error>)
        ensures
            unit_agrees(r, spec_ensure_convertible(path, self.conv)),
    {
        ensure_convertible(path, self.conv)
    }

    /// Checks that a dataset of `obj_ndim` axes can be read into an array of
    /// `ndim` axes.
    pub fn check_ndim(ndim: usize, obj_ndim: usize) -> (r: Result<(), Error>)
        ensures
            ndim == obj_ndim ==> r is Ok,
            ndim != obj_ndim ==> (r matches Err(Error::Internal(m)) && m@ == "ndim mismatch: expected "@
                + dec_nat(ndim as nat) + ", got "@ + dec_nat(obj_ndim as nat)),
    {
        if obj_ndim != ndim {
            let mut s = string_of("ndim mismatch: expected ");
            push_usize(&mut s, ndim);
            push_str(&mut s, ", got ");
            push_usize(&mut s, obj_ndim);
            return Err(Error::Internal(s));
        }
        Ok(())
    }

    /// Checks that a dataset of `obj_ndim` axes can be read as a scalar.
    pub fn check_scalar(obj_ndim: usize) -> (r: Result<(), Error>)
        ensures
            obj_ndim == 0 ==> r is Ok,
            obj_ndim != 0 ==> (r matches Err(Error::Internal(m)) && m@ == "ndim mismatch: expected scalar, got "@
                + dec_nat(obj_ndim as nat)),
    {
        if obj_ndim != 0 {
            let mut s = string_of("ndim mismatch: expected scalar, got ");
            push_usize(&mut s, obj_ndim);
            return Err(Error::Internal(s));
        }
        Ok(())
    }
}

impl Writer {
    /// A writer that allows any conversion.
    pub fn new() -> (r: Self)
        ensures
            r.conv == Conversion::Soft,
    {
        Writer { conv: Conversion::Soft }
    }

    /// The writer with another dearest conversion.
    pub fn conversion(self, conv: Conversion) -> (r: Self)
        ensures
            r.conv == conv,
    {
        Writer { conv }
    }

    /// The writer allowing no conversion.
    pub fn no_convert(self) -> (r: Self)
        ensures
            r.conv == Conversion::NoOp,
    {
        Writer { conv: Conversion::NoOp }
    }

    /// Checks that the memory type converts to the file type within the
    /// allowed conversion; `path` is the conversion path the library found.
    pub fn check_conversion(&self, path: Option<Conversion>) -> (r: Result<(), Error>)
        ensures
            unit_agrees(r, spec_ensure_convertible(path, self.conv)),
    {
        ensure_convertible(path, self.conv)
    }

    /// Checks that a contiguous array of shape `src` can be written whole into
    /// a dataset of shape `dst`.
    pub fn check_write(contiguous: bool, src: &[usize], dst: &[usize]) -> (r: Result<(), Error>)
        ensures
            !contiguous ==> (r matches Err(Error::Internal(m)) && m@ == "input array is not in standard layout or is not contiguous"@),
            contiguous && src@ == dst@ ==> r is Ok,
            contiguous && src@ != dst@ ==> (r matches Err(Error::Internal(m)) && m@ == "shape mismatch when writing: memory = "@
                + list_text(src@) + ", destination = "@ + list_text(dst@)),
    {
        if !contiguous {
            return Err(Error::Internal(string_of("input array is not in standard layout or is not contiguous")));
        }
        if !same_sizes(src, dst) {
            let mut s = string_of("shape mismatch when writing: memory = ");
            push_list(&mut s, src);
            push_str(&mut s, ", destination = ");
            push_list(&mut s, dst);
            return Err(Error::Internal(s));
        }
        Ok(())
    }

    /// Checks that a one-dimensional array can be written whole into an
    /// object with `dst` elements: it must be contiguous and of that length.
    pub fn check_write_raw(contiguous: bool, src: usize, dst: usize) -> (r: Result<(), Error>)
        ensures
            !contiguous ==> (r matches Err(Error::Internal(m)) && m@ == "input array is not in standard layout or is not contiguous"@),
            contiguous && src == dst ==> r is Ok,
            contiguous && src != dst ==> (r matches Err(Error::Internal(m)) && m@ == "length mismatch when writing: memory = "@
                + dec_nat(src as nat) + ", destination = "@ + dec_nat(dst as nat)),
    {
        if !contiguous {
            return Err(Error::Internal(string_of("input array is not in standard layout or is not contiguous")));
        }
        if src != dst {
            let mut s = string_of("length mismatch when writing: memory = ");
            push_usize(&mut s, src);
            push_str(&mut s, ", destination = ");
            push_usize(&mut s, dst);
            return Err(Error::Internal(s));
        }
        Ok(())
    }
}

} // verus!

//! Datatypes as the library describes them, and their translation to and
//! from type descriptions.

use vstd::prelude::*;
use crate::error::{Error, ErrorView};
use crate::text::{contains_nul, debug_str, dec_nat, push_str, push_usize, str_debug, string_of};
use crate::types::{
    CompoundField, CompoundType, EnumMember, EnumMemberView, EnumType, FieldView, FloatSize,
    IntSize, ToValueType, ValueType, ValueTypeView, float_bytes, int_bytes, members_view,
    pointer_bytes, fields_view,
};

verus! {

/// Sign convention of an integer datatype.
#[derive(Clone, Copy, Debug, PartialEq, Eq)]
pub enum Sign {
    /// No sign (`H5T_SGN_NONE`).
    Unsigned,
    /// Two's complement (`H5T_SGN_2`).
    TwosComplement,
    /// Anything else the library reports.
    Invalid,
}

/// Character set of a string datatype.
#[derive(Clone, Copy, Debug, PartialEq, Eq)]
pub enum CharSet {
    Ascii,
    Utf8,
    Other,
}

/// One member of a compound datatype.
#[derive(Debug, PartialEq, Eq)]
pub struct DatatypeMember {
    pub name: String,
    pub offset: usize,
    pub ty: Datatype,
}

/// A datatype as the library describes it: its class and what the library
/// reports for that class.
#[derive(Debug, PartialEq, Eq)]
pub enum Datatype {
    Integer { size: usize, precision: usize, sign: Sign },
    Float { size: usize, precision: usize },
    Enum { base: Box<Datatype>, members: Vec<EnumMember> },
    Compound { size: usize, members: Vec<DatatypeMember> },
    Array { base: Box<Datatype>, dims: Vec<u64> },
    String { size: usize, variable: bool, cset: CharSet },
    VarLen { base: Box<Datatype> },
    Other,
}

/// Abstract value of a compound member.
pub struct MemberView {
    pub name: Seq<char>,
    pub offset: usize,
    pub ty: DatatypeView,
}

/// Abstract value of a [`Datatype`].
pub enum DatatypeView {
    Integer { size: usize, precision: usize, sign: Sign },
    Float { size: usize, precision: usize },
    Enum { base: Box<DatatypeView>, members: Seq<EnumMemberView> },
    Compound { size: usize, members: Seq<MemberView> },
    Array { base: Box<DatatypeView>, dims: Seq<u64> },
    String { size: usize, variable: bool, cset: CharSet },
    VarLen { base: Box<DatatypeView> },
    Other,
}

/// The abstract value of a datatype.
pub open spec fn dt_view(t: Datatype) -> DatatypeView
    decreases t, 0nat,
{
    match t {
        Datatype::Integer { size, precision, sign } => DatatypeView::Integer { size, precision, sign },
        Datatype::Float { size, precision } => DatatypeView::Float { size, precision },
        Datatype::Enum { base, members } => DatatypeView::Enum { base: Box::new(dt_view(*base)), members: members_view(members@) },
        Datatype::Compound { size, members } => DatatypeView::Compound { size, members: dt_members_view(members@, members@.len()) },
        Datatype::Array { base, dims } => DatatypeView::Array { base: Box::new(dt_view(*base)), dims: dims@ },
        Datatype::String { size, variable, cset } => DatatypeView::String { size, variable, cset },
        Datatype::VarLen { base } => DatatypeView::VarLen { base: Box::new(dt_view(*base)) },
        Datatype::Other => DatatypeView::Other,
    }
}

/// The abstract values of the first `n` compound members.
pub open spec fn dt_members_view(m: Seq<DatatypeMember>, n: nat) -> Seq<MemberView>
    decreases m, n,
{
    if n == 0 || n > m.len() {
        Seq::empty()
    } else {
        dt_members_view(m, (n - 1) as nat).push(MemberView { name: m[n - 1].name@, offset: m[n - 1].offset, ty: dt_view(m[n - 1].ty) })
    }
}

impl View for Datatype {
    type V = DatatypeView;

    open spec fn view(&self) -> DatatypeView {
        dt_view(*self)
    }
}

/// The integer width of `size` bytes, if any.
pub open spec fn int_size_of(size: usize) -> Option<IntSize> {
    if size == 1 {
        Some(IntSize::U1)
    } else if size == 2 {
        Some(IntSize::U2)
    } else if size == 4 {
        Some(IntSize::U4)
    } else if size == 8 {
        Some(IntSize::U8)
    } else {
        None
    }
}

/// The floating-point width of `size` bytes, if any.
pub open spec fn float_size_of(size: usize) -> Option<FloatSize> {
    if size == 4 {
        Some(FloatSize::U4)
    } else if size == 8 {
        Some(FloatSize::U8)
    } else {
        None
    }
}

/// The members of the enumeration the library uses for booleans.
pub open spec fn is_bool_members(m: Seq<EnumMemberView>) -> bool {
    m.len() == 2 && m[0].name == "FALSE"@ && m[0].value == 0 && m[1].name == "TRUE"@ && m[1].value == 1
}

/// What `to_descriptor` gives for an enumeration over integers of width `w`.
pub open spec fn enum_descriptor(w: IntSize, signed: bool, members: Seq<EnumMemberView>) -> ValueTypeView {
    if w == IntSize::U1 && is_bool_members(members) {
        ValueTypeView::Boolean
    } else {
        ValueTypeView::Enum { width: w, signed, members }
    }
}

/// What `to_descriptor` gives.
pub open spec fn spec_descriptor(t: DatatypeView) -> Result<ValueTypeView, Seq<char>>
    decreases t, 0nat,
{
    match t {
        DatatypeView::Integer { size, sign, .. } => match sign {
            Sign::Invalid => Err("Invalid sign of integer datatype"@),
            _ => match int_size_of(size) {
                None => Err("Invalid size of integer datatype"@),
                Some(w) => Ok(if sign == Sign::TwosComplement { ValueTypeView::Integer(w) } else { ValueTypeView::Unsigned(w) }),
            },
        },
        DatatypeView::Float { size, .. } => match float_size_of(size) {
            None => Err("Invalid size of float datatype"@),
            Some(w) => Ok(ValueTypeView::Float(w)),
        },
        DatatypeView::Enum { base, members } => match spec_descriptor(*base) {
            Err(e) => Err(e),
            Ok(ValueTypeView::Integer(w)) => Ok(enum_descriptor(w, true, members)),
            Ok(ValueTypeView::Unsigned(w)) => Ok(enum_descriptor(w, false, members)),
            Ok(_) => Err("Invalid base type for enum datatype"@),
        },
        DatatypeView::Compound { size, members } => match spec_fields(members, members.len()) {
            Err(e) => Err(e),
            Ok(fs) => Ok(ValueTypeView::Compound { fields: fs, size }),
        },
        DatatypeView::Array { base, dims } => if dims.len() == 1 {
            match spec_descriptor(*base) {
                Err(e) => Err(e),
                Ok(b) => Ok(ValueTypeView::FixedArray(Box::new(b), dims[0] as usize)),
            }
        } else {
            Err("Multi-dimensional array datatypes are not supported"@)
        },
        DatatypeView::String { size, variable, cset } => match (variable, cset) {
            (false, CharSet::Ascii) => Ok(ValueTypeView::FixedAscii(size)),
            (false, CharSet::Utf8) => Ok(ValueTypeView::FixedUnicode(size)),
            (true, CharSet::Ascii) => Ok(ValueTypeView::VarLenAscii),
            (true, CharSet::Utf8) => Ok(ValueTypeView::VarLenUnicode),
            _ => Err("Invalid encoding for string datatype"@),
        },
        DatatypeView::VarLen { base } => match spec_descriptor(*base) {
            Err(e) => Err(e),
            Ok(b) => Ok(ValueTypeView::VarLenArray(Box::new(b))),
        },
        DatatypeView::Other => Err("Unsupported datatype class"@),
    }
}

/// The descriptions of the first `n` compound members, or the first error.
pub open spec fn spec_fields(m: Seq<MemberView>, n: nat) -> Result<Seq<FieldView>, Seq<char>>
    decreases m, n,
{
    if n == 0 || n > m.len() {
        Ok(Seq::empty())
    } else {
        match spec_fields(m, (n - 1) as nat) {
            Err(e) => Err(e),
            Ok(p) => match spec_descriptor(m[n - 1].ty) {
                Err(e) => Err(e),
                Ok(t) => Ok(p.push(FieldView { name: m[n - 1].name, ty: t, offset: m[n - 1].offset })),
            },
        }
    }
}

/// The datatype `from_descriptor` builds for a description.
pub open spec fn spec_datatype(v: ValueTypeView) -> DatatypeView
    decreases v, 0nat,
{
    match v {
        ValueTypeView::Integer(w) => DatatypeView::Integer { size: int_bytes(w) as usize, precision: (8 * int_bytes(w)) as usize, sign: Sign::TwosComplement },
        ValueTypeView::Unsigned(w) => DatatypeView::Integer { size: int_bytes(w) as usize, precision: (8 * int_bytes(w)) as usize, sign: Sign::Unsigned },
        ValueTypeView::Float(w) => DatatypeView::Float { size: float_bytes(w) as usize, precision: (8 * float_bytes(w)) as usize },
        ValueTypeView::Boolean => DatatypeView::Enum {
            base: Box::new(DatatypeView::Integer { size: 1, precision: 8, sign: Sign::TwosComplement }),
            members: seq![EnumMemberView { name: "FALSE"@, value: 0 }, EnumMemberView { name: "TRUE"@, value: 1 }],
        },
        ValueTypeView::Enum { width, signed, members } => DatatypeView::Enum {
            base: Box::new(DatatypeView::Integer {
                size: int_bytes(width) as usize,
                precision: (8 * int_bytes(width)) as usize,
                sign: if signed { Sign::TwosComplement } else { Sign::Unsigned },
            }),
            members,
        },
        ValueTypeView::Compound { fields, size } => DatatypeView::Compound { size, members: spec_members(fields, fields.len()) },
        ValueTypeView::FixedArray(b, n) => DatatypeView::Array { base: Box::new(spec_datatype(*b)), dims: seq![n as u64] },
        ValueTypeView::FixedAscii(n) => DatatypeView::String { size: n, variable: false, cset: CharSet::Ascii },
        ValueTypeView::FixedUnicode(n) => DatatypeView::String { size: n, variable: false, cset: CharSet::Utf8 },
        ValueTypeView::VarLenArray(b) => DatatypeView::VarLen { base: Box::new(spec_datatype(*b)) },
        ValueTypeView::VarLenAscii => DatatypeView::String { size: pointer_bytes() as usize, variable: true, cset: CharSet::Ascii },
        ValueTypeView::VarLenUnicode => DatatypeView::String { size: pointer_bytes() as usize, variable: true, cset: CharSet::Utf8 },
    }
}

/// The members `from_descriptor` builds for the first `n` fields.
pub open spec fn spec_members(f: Seq<FieldView>, n: nat) -> Seq<MemberView>
    decreases f, n,
{
    if n == 0 || n > f.len() {
        Seq::empty()
    } else {
        spec_members(f, (n - 1) as nat).push(MemberView { name: f[n - 1].name, offset: f[n - 1].offset, ty: spec_datatype(f[n - 1].ty) })
    }
}

/// A description agrees with an abstract outcome.
pub open spec fn descriptor_matches(r: Result<ValueType, Error>, s: Result<ValueTypeView, Seq<char>>) -> bool {
    match (r, s) {
        (Ok(a), Ok(b)) => a@ == b,
        (Err(Error::Internal(m)), Err(t)) => m@ == t,
        _ => false,
    }
}

fn internal(msg: &str) -> (r: Error)
    ensures
        r matches Error::Internal(m) && m@ == msg@,
{
    Error::Internal(string_of(msg))
}

fn copy_string(s: &String) -> (r: String)
    ensures
        r@ == s@,
{
    s.clone()
}

fn copy_members(m: &Vec<EnumMember>) -> (r: Vec<EnumMember>)
    ensures
        members_view(r@) == members_view(m@),
{
    let mut out: Vec<EnumMember> = Vec::new();
    let mut i: usize = 0;
    while i < m.len()
        invariant
            i <= m@.len(),
            out@.len() == i,
            forall|k: int| 0 <= k < i ==> (#[trigger] out@[k]).name@ == m@[k].name@ && out@[k].value == m@[k].value,
        decreases m@.len() - i,
    {
        out.push(EnumMember { name: copy_string(&m[i].name), value: m[i].value });
        i = i + 1;
    }
    assert(members_view(out@) =~= members_view(m@));
    out
}

fn is_bool_members_exec(m: &Vec<EnumMember>) -> (r: bool)
    ensures
        r == is_bool_members(members_view(m@)),
{
    if m.len() != 2 {
        return false;
    }
    let f = string_of("FALSE");
    let t = string_of("TRUE");
    m[0].name == f && m[0].value == 0 && m[1].name == t && m[1].value == 1
}

proof fn lemma_members_view_prefix(a: Seq<DatatypeMember>, b: Seq<DatatypeMember>, n: nat)
    requires
        n <= a.len(),
        n <= b.len(),
        forall|i: int| 0 <= i < n ==> a[i] == b[i],
    ensures
        dt_members_view(a, n) == dt_members_view(b, n),
    decreases n,
{
    if n > 0 {
        lemma_members_view_prefix(a, b, (n - 1) as nat);
    }
}

proof fn lemma_fields_err(m: Seq<MemberView>, n: nat, k: nat)
    requires
        n <= k <= m.len(),
        spec_fields(m, n) is Err,
    ensures
        spec_fields(m, k) == spec_fields(m, n),
    decreases k - n,
{
    if n < k {
        lemma_fields_err(m, n, (k - 1) as nat);
    }
}

impl Datatype {
    /// The description of the type of the values of this datatype.
    pub fn to_descriptor(&self) -> (r: Result<ValueType, Error>)
        ensures
            descriptor_matches(r, spec_descriptor(self@)),
        decreases self,
    {
        match self {
            Datatype::Integer { size, sign, .. } => {
                let signed = match sign {
                    Sign::Unsigned => false,
                    Sign::TwosComplement => true,
                    Sign::Invalid => {
                        return Err(internal("Invalid sign of integer datatype"));
                    },
                };
                match IntSize::from_int(*size) {
                    None => Err(internal("Invalid size of integer datatype")),
                    Some(w) => Ok(if signed { ValueType::Integer(w) } else { ValueType::Unsigned(w) }),
                }
            },
            Datatype::Float { size, .. } => match FloatSize::from_int(*size) {
                None => Err(internal("Invalid size of float datatype")),
                Some(w) => Ok(ValueType::Float(w)),
            },
            Datatype::Enum { base, members } => {
                let (size, signed) = match base.to_descriptor()? {
                    ValueType::Integer(w) => (w, true),
                    ValueType::Unsigned(w) => (w, false),
                    _ => {
                        return Err(internal("Invalid base type for enum datatype"));
                    },
                };
                let is_u1 = match size {
                    IntSize::U1 => true,
                    _ => false,
                };
                if is_u1 && is_bool_members_exec(members) {
                    Ok(ValueType::Boolean)
                } else {
                    Ok(ValueType::Enum(EnumType { size, signed, members: copy_members(members) }))
                }
            },
            Datatype::Compound { size, members } => {
                let ghost mv = dt_members_view(members@, members@.len());
                let mut fields: Vec<CompoundField> = Vec::new();
                let mut i: usize = 0;
                while i < members.len()
                    invariant
                        i <= members@.len(),
                        *self == (Datatype::Compound { size: *size, members: *members }),
                        mv == dt_members_view(members@, members@.len()),
                        spec_fields(mv, i as nat) == Ok::<Seq<FieldView>, Seq<char>>(fields_view(fields@, fields@.len())),
                        fields@.len() == i,
                    decreases members@.len() - i,
                {
                    let m = &members[i];
                    proof {
                        let ms = members@;
                        assert((*self)->Compound_members == *members);
                        assert(decreases_to!(*self => (*self)->Compound_members));
                        assert(decreases_to!(*members => ms));
                        assert(decreases_to!(ms => ms[i as int]));
                        assert(decreases_to!(ms[i as int] => ms[i as int].ty));
                        lemma_members_view_take(members@, (i + 1) as nat, members@.len());
                        lemma_members_view_len(members@, i as nat);
                        assert(mv.take(i + 1)[i as int] == mv[i as int]);
                        assert(mv[i as int] == (MemberView { name: members@[i as int].name@, offset: members@[i as int].offset, ty: dt_view(members@[i as int].ty) }));
                        assert(mv.len() == members@.len());
                    }
                    let t = match m.ty.to_descriptor() {
                        Ok(t) => t,
                        Err(e) => {
                            proof {
                                lemma_fields_err(mv, (i + 1) as nat, mv.len());
                            }
                            return Err(e);
                        },
                    };
                    let ghost before = fields@;
                    fields.push(CompoundField { name: copy_string(&m.name), ty: t, offset: m.offset });
                    proof {
                        crate::types::lemma_fields_view_prefix(fields@, before, i as nat);
                    }
                    i = i + 1;
                }
                proof {
                    lemma_members_view_len(members@, members@.len());
                }
                Ok(ValueType::Compound(CompoundType { fields, size: *size }))
            },
            Datatype::Array { base, dims } => {
                if dims.len() == 1 {
                    let b = base.to_descriptor()?;
                    let n = dims[0] as usize;
                    assert(n == dims@[0] as usize);
                    Ok(ValueType::FixedArray(Box::new(b), n))
                } else {
                    Err(internal("Multi-dimensional array datatypes are not supported"))
                }
            },
            Datatype::String { size, variable, cset } => match (*variable, *cset) {
                (false, CharSet::Ascii) => Ok(ValueType::FixedAscii(*size)),
                (false, CharSet::Utf8) => Ok(ValueType::FixedUnicode(*size)),
                (true, CharSet::Ascii) => Ok(ValueType::VarLenAscii),
                (true, CharSet::Utf8) => Ok(ValueType::VarLenUnicode),
                _ => Err(internal("Invalid encoding for string datatype")),
            },
            Datatype::VarLen { base } => {
                let b = base.to_descriptor()?;
                Ok(ValueType::VarLenArray(Box::new(b)))
            },
            Datatype::Other => Err(internal("Unsupported datatype class")),
        }
    }

    /// The description of the type of the values of this datatype.
    pub fn to_value_type(&self) -> (r: Result<ValueType, Error>)
        ensures
            descriptor_matches(r, spec_descriptor(self@)),
    {
        self.to_descriptor()
    }
}

/// The view of the members depends on the first `n` members alone.
proof fn lemma_members_view_take(m: Seq<DatatypeMember>, n: nat, k: nat)
    requires
        n <= k <= m.len(),
    ensures
        dt_members_view(m, k).take(n as int) == dt_members_view(m, n),
        dt_members_view(m, k).len() == k,
    decreases k,
{
    if k > n {
        lemma_members_view_take(m, n, (k - 1) as nat);
        assert(dt_members_view(m, k).take(n as int) =~= dt_members_view(m, (k - 1) as nat).take(n as int));
    } else {
        lemma_members_view_len(m, k);
        assert(dt_members_view(m, k).take(n as int) =~= dt_members_view(m, n));
    }
}

proof fn lemma_members_view_len(m: Seq<DatatypeMember>, k: nat)
    requires
        k <= m.len(),
    ensures
        dt_members_view(m, k).len() == k,
    decreases k,
{
    if k > 0 {
        lemma_members_view_len(m, (k - 1) as nat);
    }
}


/// The message of the error for a name holding a nul character.
pub open spec fn nul_name_error(name: Seq<char>) -> Seq<char> {
    "null byte in string: "@ + str_debug(name)
}

/// The error met at the first of the first `n` enumeration members whose
/// name holds a nul character, if any.
pub open spec fn members_name_error(m: Seq<EnumMemberView>, n: nat) -> Option<Seq<char>>
    decreases n,
{
    if n == 0 || n > m.len() {
        None
    } else {
        match members_name_error(m, (n - 1) as nat) {
            Some(e) => Some(e),
            None => if m[n - 1].name.contains('\0') {
                Some(nul_name_error(m[n - 1].name))
            } else {
                None
            },
        }
    }
}

/// The error that building the datatype for a description meets, if any: the
/// first enumeration member or compound field whose name holds a nul
/// character, in the order the description lists them (a field's name before
/// its type).
pub open spec fn descriptor_name_error(v: ValueTypeView) -> Option<Seq<char>>
    decreases v, 0nat,
{
    match v {
        ValueTypeView::Enum { members, .. } => members_name_error(members, members.len()),
        ValueTypeView::Compound { fields, .. } => fields_name_error(fields, fields.len()),
        ValueTypeView::FixedArray(b, _) => descriptor_name_error(*b),
        ValueTypeView::VarLenArray(b) => descriptor_name_error(*b),
        _ => None,
    }
}

/// The error met in the first `n` compound fields, if any.
pub open spec fn fields_name_error(f: Seq<FieldView>, n: nat) -> Option<Seq<char>>
    decreases f, n,
{
    if n == 0 || n > f.len() {
        None
    } else {
        match fields_name_error(f, (n - 1) as nat) {
            Some(e) => Some(e),
            None => if f[n - 1].name.contains('\0') {
                Some(nul_name_error(f[n - 1].name))
            } else {
                descriptor_name_error(f[n - 1].ty)
            },
        }
    }
}

proof fn lemma_members_error_stays(m: Seq<EnumMemberView>, n: nat, k: nat)
    requires
        n <= k <= m.len(),
        members_name_error(m, n) is Some,
    ensures
        members_name_error(m, k) == members_name_error(m, n),
    decreases k - n,
{
    if n < k {
        lemma_members_error_stays(m, n, (k - 1) as nat);
    }
}

proof fn lemma_fields_error_stays(f: Seq<FieldView>, n: nat, k: nat)
    requires
        n <= k <= f.len(),
        fields_name_error(f, n) is Some,
    ensures
        fields_name_error(f, k) == fields_name_error(f, n),
    decreases k - n,
{
    if n < k {
        lemma_fields_error_stays(f, n, (k - 1) as nat);
    }
}

fn name_error(name: &str) -> (r: Error)
    ensures
        r@ == ErrorView::Internal(nul_name_error(name@)),
{
    let mut s = string_of("null byte in string: ");
    let d = debug_str(name);
    push_str(&mut s, d.as_str());
    Error::Internal(s)
}

/// Checks the enumeration members' names.
fn check_member_names(m: &Vec<EnumMember>) -> (r: Result<(), Error>)
    ensures
        match (r, members_name_error(members_view(m@), m@.len())) {
            (Ok(()), None) => true,
            (Err(e), Some(x)) => e@ == ErrorView::Internal(x),
            _ => false,
        },
{
    let ghost mv = members_view(m@);
    let mut i: usize = 0;
    while i < m.len()
        invariant
            i <= m@.len(),
            mv == members_view(m@),
            members_name_error(mv, i as nat) is None,
        decreases m@.len() - i,
    {
        assert(mv[i as int].name == m@[i as int].name@);
        if contains_nul(m[i].name.as_str()) {
            proof {
                lemma_members_error_stays(mv, (i + 1) as nat, mv.len());
            }
            return Err(name_error(m[i].name.as_str()));
        }
        i = i + 1;
    }
    Ok(())
}

impl Datatype {
    /// The datatype for values described by `desc`; an enumeration member or
    /// compound field whose name holds a nul character makes it fail.
    pub fn from_descriptor(desc: &ValueType) -> (r: Result<Datatype, Error>)
        ensures
            match (r, descriptor_name_error(desc@)) {
                (Ok(d), None) => d@ == spec_datatype(desc@),
                (Err(e), Some(m)) => e@ == ErrorView::Internal(m),
                _ => false,
            },
        decreases desc,
    {
        match desc {
            ValueType::Integer(w) => {
                let b = w.bytes();
                Ok(Datatype::Integer { size: b, precision: 8 * b, sign: Sign::TwosComplement })
            },
            ValueType::Unsigned(w) => {
                let b = w.bytes();
                Ok(Datatype::Integer { size: b, precision: 8 * b, sign: Sign::Unsigned })
            },
            ValueType::Float(w) => {
                let b = w.bytes();
                Ok(Datatype::Float { size: b, precision: 8 * b })
            },
            ValueType::Boolean => {
                let mut members: Vec<EnumMember> = Vec::new();
                members.push(EnumMember { name: string_of("FALSE"), value: 0 });
                members.push(EnumMember { name: string_of("TRUE"), value: 1 });
                let base = Datatype::Integer { size: 1, precision: 8, sign: Sign::TwosComplement };
                assert(base@ == DatatypeView::Integer { size: 1, precision: 8, sign: Sign::TwosComplement });
                let r = Datatype::Enum { base: Box::new(base), members };
                assert(members_view(members@) =~= seq![EnumMemberView { name: "FALSE"@, value: 0 }, EnumMemberView { name: "TRUE"@, value: 1 }]);
                assert(r@ == spec_datatype(desc@));
                Ok(r)
            },
            ValueType::Enum(e) => {
                let w = e.size;
                let sign = if e.signed { Sign::TwosComplement } else { Sign::Unsigned };
                let b = w.bytes();
                let base = Datatype::Integer { size: b, precision: 8 * b, sign };
                assert(base@ == DatatypeView::Integer { size: b, precision: (8 * b) as usize, sign });
                match check_member_names(&e.members) {
                    Ok(()) => {},
                    Err(x) => {
                        return Err(x);
                    },
                }
                let r = Datatype::Enum { base: Box::new(base), members: copy_members(&e.members) };
                assert(r@ == spec_datatype(desc@));
                Ok(r)
            },
            ValueType::Compound(c) => {
                let ghost fv = fields_view(c.fields@, c.fields@.len());
                let mut members: Vec<DatatypeMember> = Vec::new();
                let mut i: usize = 0;
                proof {
                    crate::types::lemma_fields_view_len(c.fields@, c.fields@.len());
                }
                while i < c.fields.len()
                    invariant
                        i <= c.fields@.len(),
                        *desc == ValueType::Compound(*c),
                        fv == fields_view(c.fields@, c.fields@.len()),
                        fv.len() == c.fields@.len(),
                        members@.len() == i,
                        dt_members_view(members@, i as nat) == spec_members(fv, i as nat),
                        fields_name_error(fv, i as nat) is None,
                    decreases c.fields@.len() - i,
                {
                    let f = &c.fields[i];
                    proof {
                        let fs = c.fields@;
                        assert((*desc)->Compound_0 == *c);
                        assert(decreases_to!(*desc => (*desc)->Compound_0));
                        assert(decreases_to!(c.fields => fs));
                        assert(decreases_to!(fs => fs[i as int]));
                        assert(decreases_to!(fs[i as int] => fs[i as int].ty));
                        crate::types::lemma_fields_view_take(c.fields@, (i + 1) as nat, c.fields@.len());
                        crate::types::lemma_fields_view_len(c.fields@, i as nat);
                        assert(fv.take(i + 1)[i as int] == fv[i as int]);
                        assert(fv[i as int] == (FieldView { name: fs[i as int].name@, ty: fs[i as int].ty@, offset: fs[i as int].offset }));
                    }
                    if contains_nul(f.name.as_str()) {
                        proof {
                            lemma_fields_error_stays(fv, (i + 1) as nat, fv.len());
                        }
                        return Err(name_error(f.name.as_str()));
                    }
                    let ty = match Datatype::from_descriptor(&f.ty) {
                        Ok(t) => t,
                        Err(x) => {
                            proof {
                                lemma_fields_error_stays(fv, (i + 1) as nat, fv.len());
                            }
                            return Err(x);
                        },
                    };
                    let ghost before = members@;
                    members.push(DatatypeMember { name: copy_string(&f.name), offset: f.offset, ty });
                    proof {
                        lemma_members_view_prefix(members@, before, i as nat);
                        lemma_members_view_len(members@, i as nat);
                    }
                    i = i + 1;
                }
                let r = Datatype::Compound { size: c.size, members };
                assert(r@ == spec_datatype(desc@));
                Ok(r)
            },
            ValueType::FixedArray(b, n) => {
                let base = match Datatype::from_descriptor(b) {
                    Ok(t) => t,
                    Err(x) => {
                        return Err(x);
                    },
                };
                let mut dims: Vec<u64> = Vec::new();
                dims.push(*n as u64);
                assert(dims@ =~= seq![*n as u64]);
                let r = Datatype::Array { base: Box::new(base), dims };
                assert(r@ == spec_datatype(desc@));
                Ok(r)
            },
            ValueType::FixedAscii(n) => Ok(Datatype::String { size: *n, variable: false, cset: CharSet::Ascii }),
            ValueType::FixedUnicode(n) => Ok(Datatype::String { size: *n, variable: false, cset: CharSet::Utf8 }),
            ValueType::VarLenArray(b) => match Datatype::from_descriptor(b) {
                Ok(t) => Ok(Datatype::VarLen { base: Box::new(t) }),
                Err(x) => Err(x),
            },
            ValueType::VarLenAscii => Ok(Datatype::String { size: pointer_size(), variable: true, cset: CharSet::Ascii }),
            ValueType::VarLenUnicode => Ok(Datatype::String { size: pointer_size(), variable: true, cset: CharSet::Utf8 }),
        }
    }

    /// The datatype for values of type `T`.
    pub fn from_type<T: ToValueType>() -> (r: Result<Datatype, Error>)
        ensures
            match (r, descriptor_name_error(T::spec_value_type())) {
                (Ok(d), None) => d@ == spec_datatype(T::spec_value_type()),
                (Err(e), Some(m)) => e@ == ErrorView::Internal(m),
                _ => false,
            },
    {
        Datatype::from_descriptor(&T::value_type())
    }
}

fn pointer_size() -> (r: usize)
    ensures
        r == pointer_bytes(),
{
    (usize::BITS / 8) as usize
}

/// No enumeration in the description has the width and members of the
/// library's booleans (such an enumeration reads back as a boolean).
pub open spec fn no_bool_enum(v: ValueTypeView) -> bool
    decreases v, 0nat,
{
    match v {
        ValueTypeView::Enum { width, members, .. } => !(width == IntSize::U1 && is_bool_members(members)),
        ValueTypeView::Compound { fields, .. } => fields_no_bool_enum(fields, fields.len()),
        ValueTypeView::FixedArray(b, _) => no_bool_enum(*b),
        ValueTypeView::VarLenArray(b) => no_bool_enum(*b),
        _ => true,
    }
}

/// No enumeration in the first `n` fields has the shape of the booleans.
pub open spec fn fields_no_bool_enum(f: Seq<FieldView>, n: nat) -> bool
    decreases f, n,
{
    if n == 0 || n > f.len() {
        true
    } else {
        fields_no_bool_enum(f, (n - 1) as nat) && no_bool_enum(f[n - 1].ty)
    }
}

proof fn lemma_spec_fields_prefix(a: Seq<MemberView>, b: Seq<MemberView>, n: nat)
    requires
        n <= a.len(),
        n <= b.len(),
        forall|i: int| 0 <= i < n ==> a[i] == b[i],
    ensures
        spec_fields(a, n) == spec_fields(b, n),
    decreases n,
{
    if n > 0 {
        lemma_spec_fields_prefix(a, b, (n - 1) as nat);
    }
}

proof fn lemma_spec_members_len(f: Seq<FieldView>, n: nat)
    requires
        n <= f.len(),
    ensures
        spec_members(f, n).len() == n,
    decreases n,
{
    if n > 0 {
        lemma_spec_members_len(f, (n - 1) as nat);
    }
}

proof fn lemma_roundtrip(v: ValueTypeView)
    requires
        no_bool_enum(v),
    ensures
        spec_descriptor(spec_datatype(v)) == Ok::<ValueTypeView, Seq<char>>(v),
    decreases v, 0nat,
{
    reveal_strlit("FALSE");
    reveal_strlit("TRUE");
    match v {
        ValueTypeView::Compound { fields, size } => {
            lemma_roundtrip_fields(fields, fields.len());
            lemma_spec_members_len(fields, fields.len());
            assert(fields.take(fields.len() as int) =~= fields);
            let ms = spec_members(fields, fields.len());
            assert(spec_datatype(v) == DatatypeView::Compound { size, members: ms });
            assert(spec_fields(ms, ms.len()) == Ok::<Seq<FieldView>, Seq<char>>(fields));
            assert(spec_descriptor(DatatypeView::Compound { size, members: ms }) == Ok::<ValueTypeView, Seq<char>>(ValueTypeView::Compound { fields, size }));
        },
        ValueTypeView::FixedArray(b, n) => {
            lemma_roundtrip(*b);
        },
        ValueTypeView::VarLenArray(b) => {
            lemma_roundtrip(*b);
        },
        ValueTypeView::Boolean => {
            let m = seq![EnumMemberView { name: "FALSE"@, value: 0 }, EnumMemberView { name: "TRUE"@, value: 1 }];
            assert(is_bool_members(m));
            let base = DatatypeView::Integer { size: 1, precision: 8, sign: Sign::TwosComplement };
            assert(spec_descriptor(base) == Ok::<ValueTypeView, Seq<char>>(ValueTypeView::Integer(IntSize::U1)));
        },
        ValueTypeView::Enum { width, signed, members } => {
            let base = DatatypeView::Integer {
                size: int_bytes(width) as usize,
                precision: (8 * int_bytes(width)) as usize,
                sign: if signed { Sign::TwosComplement } else { Sign::Unsigned },
            };
            if signed {
                assert(spec_descriptor(base) == Ok::<ValueTypeView, Seq<char>>(ValueTypeView::Integer(width)));
            } else {
                assert(spec_descriptor(base) == Ok::<ValueTypeView, Seq<char>>(ValueTypeView::Unsigned(width)));
            }
        },
        _ => {},
    }
}

proof fn lemma_roundtrip_fields(f: Seq<FieldView>, n: nat)
    requires
        n <= f.len(),
        fields_no_bool_enum(f, n),
    ensures
        spec_fields(spec_members(f, n), n) == Ok::<Seq<FieldView>, Seq<char>>(f.take(n as int)),
    decreases f, n,
{
    if n > 0 {
        let m = (n - 1) as nat;
        lemma_roundtrip_fields(f, m);
        lemma_spec_members_len(f, m);
        lemma_spec_members_len(f, n);
        let full = spec_members(f, n);
        let prev = spec_members(f, m);
        assert(full == prev.push(MemberView { name: f[m as int].name, offset: f[m as int].offset, ty: spec_datatype(f[m as int].ty) }));
        lemma_spec_fields_prefix(full, prev, m);
        assert(decreases_to!(f => f[m as int]));
        lemma_roundtrip(f[m as int].ty);
        assert(f.take(n as int) =~= f.take(m as int).push(f[m as int]));
        assert(spec_fields(full, m) == Ok::<Seq<FieldView>, Seq<char>>(f.take(m as int)));
        assert(full[m as int].ty == spec_datatype(f[m as int].ty));
        assert(spec_descriptor(full[m as int].ty) == Ok::<ValueTypeView, Seq<char>>(f[m as int].ty));
        assert((FieldView { name: full[m as int].name, ty: f[m as int].ty, offset: full[m as int].offset }) == f[m as int]);
    } else {
        assert(f.take(0) =~= Seq::<FieldView>::empty());
    }
}

/// Building the datatype for a description and describing that datatype
/// gives the description back, unless it holds an enumeration shaped like
/// the library's booleans.
pub proof fn datatype_roundtrip(v: ValueTypeView)
    requires
        no_bool_enum(v),
    ensures
        spec_descriptor(spec_datatype(v)) == Ok::<ValueTypeView, Seq<char>>(v),
{
    lemma_roundtrip(v);
}


/// The datatypes built for the atomic descriptions, and what atomic
/// datatypes describe as: fixed-length ASCII and UTF-8 strings keep their
/// length and character set and are not variable-length; variable-length
/// ASCII and UTF-8 strings keep their character set; a signed integer of `k`
/// bytes is a two's-complement integer of `k` bytes and `8k` bits, an
/// unsigned one has no sign, a float of `k` bytes has `8k` bits; and the
/// library's booleans are an 8-bit signed enumeration with `FALSE` = 0 and
/// `TRUE` = 1.
pub proof fn atomic_datatype_law(n: usize, w: IntSize, fw: FloatSize, precision: usize)
    ensures
        spec_datatype(ValueTypeView::FixedAscii(n)) == (DatatypeView::String { size: n, variable: false, cset: CharSet::Ascii }),
        spec_datatype(ValueTypeView::FixedUnicode(n)) == (DatatypeView::String { size: n, variable: false, cset: CharSet::Utf8 }),
        spec_datatype(ValueTypeView::VarLenAscii) matches DatatypeView::String { variable: true, cset: CharSet::Ascii, .. },
        spec_datatype(ValueTypeView::VarLenUnicode) matches DatatypeView::String { variable: true, cset: CharSet::Utf8, .. },
        spec_descriptor(DatatypeView::String { size: n, variable: false, cset: CharSet::Ascii })
            == Ok::<ValueTypeView, Seq<char>>(ValueTypeView::FixedAscii(n)),
        spec_descriptor(DatatypeView::String { size: n, variable: false, cset: CharSet::Utf8 })
            == Ok::<ValueTypeView, Seq<char>>(ValueTypeView::FixedUnicode(n)),
        spec_descriptor(DatatypeView::String { size: n, variable: true, cset: CharSet::Ascii })
            == Ok::<ValueTypeView, Seq<char>>(ValueTypeView::VarLenAscii),
        spec_descriptor(DatatypeView::String { size: n, variable: true, cset: CharSet::Utf8 })
            == Ok::<ValueTypeView, Seq<char>>(ValueTypeView::VarLenUnicode),
        ({
            let k: usize = match w {
                IntSize::U1 => 1,
                IntSize::U2 => 2,
                IntSize::U4 => 4,
                IntSize::U8 => 8,
            };
            &&& spec_datatype(ValueTypeView::Integer(w)) == (DatatypeView::Integer { size: k, precision: (8 * k) as usize, sign: Sign::TwosComplement })
            &&& spec_datatype(ValueTypeView::Unsigned(w)) == (DatatypeView::Integer { size: k, precision: (8 * k) as usize, sign: Sign::Unsigned })
            &&& spec_descriptor(DatatypeView::Integer { size: k, precision, sign: Sign::TwosComplement })
                == Ok::<ValueTypeView, Seq<char>>(ValueTypeView::Integer(w))
            &&& spec_descriptor(DatatypeView::Integer { size: k, precision, sign: Sign::Unsigned })
                == Ok::<ValueTypeView, Seq<char>>(ValueTypeView::Unsigned(w))
        }),
        ({
            let k: usize = match fw {
                FloatSize::U4 => 4,
                FloatSize::U8 => 8,
            };
            &&& spec_datatype(ValueTypeView::Float(fw)) == (DatatypeView::Float { size: k, precision: (8 * k) as usize })
            &&& spec_descriptor(DatatypeView::Float { size: k, precision })
                == Ok::<ValueTypeView, Seq<char>>(ValueTypeView::Float(fw))
        }),
        spec_datatype(ValueTypeView::Boolean) == (DatatypeView::Enum {
            base: Box::new(DatatypeView::Integer { size: 1, precision: 8, sign: Sign::TwosComplement }),
            members: seq![EnumMemberView { name: "FALSE"@, value: 0 }, EnumMemberView { name: "TRUE"@, value: 1 }],
        }),
{
}

/// How an atomic datatype is shown: its precision in bits and its kind.
/// Other classes are not shown this way.
pub open spec fn datatype_text(t: DatatypeView) -> Option<Seq<char>> {
    match t {
        DatatypeView::Integer { precision, sign, .. } => Some("<HDF5 datatype: "@ + dec_nat(precision as nat) + "-bit "@
            + (if sign == Sign::TwosComplement { Seq::empty() } else { "un"@ }) + "signed integer>"@),
        DatatypeView::Float { precision, .. } => Some("<HDF5 datatype: "@ + dec_nat(precision as nat) + "-bit float>"@),
        _ => None,
    }
}

impl Datatype {
    /// The datatype as text, such as `<HDF5 datatype: 32-bit unsigned
    /// integer>`, for integer and floating-point datatypes.
    pub fn to_string(&self) -> (r: Option<String>)
        ensures
            match (r, datatype_text(self@)) {
                (Some(a), Some(b)) => a@ == b,
                (None, None) => true,
                _ => false,
            },
    {
        match self {
            Datatype::Integer { precision, sign, .. } => {
                let mut s = string_of("<HDF5 datatype: ");
                push_usize(&mut s, *precision);
                push_str(&mut s, "-bit ");
                let ghost before = s@;
                let signed = match sign {
                    Sign::TwosComplement => true,
                    _ => false,
                };
                if !signed {
                    push_str(&mut s, "un");
                }
                assert(s@ =~= before + (if *sign == Sign::TwosComplement { Seq::<char>::empty() } else { "un"@ }));
                push_str(&mut s, "signed integer>");
                Some(s)
            },
            Datatype::Float { precision, .. } => {
                let mut s = string_of("<HDF5 datatype: ");
                push_usize(&mut s, *precision);
                push_str(&mut s, "-bit float>");
                Some(s)
            },
            _ => None,
        }
    }
}

/// Byte order of a datatype.
#[derive(Clone, Copy, Debug, PartialEq, Eq)]
pub enum ByteOrder {
    LittleEndian,
    BigEndian,
    Vax,
    Mixed,
    /// No particular order (such as for strings or opaque data).
    NoOrder,
}

/// The byte order a code stands for; an unknown code stands for no order.
pub open spec fn spec_byte_order_of(code: i32) -> ByteOrder {
    if code == 0 {
        ByteOrder::LittleEndian
    } else if code == 1 {
        ByteOrder::BigEndian
    } else if code == 2 {
        ByteOrder::Vax
    } else if code == 3 {
        ByteOrder::Mixed
    } else {
        ByteOrder::NoOrder
    }
}

impl ByteOrder {
    /// The byte order a code of the library stands for.
    pub fn from_raw(code: i32) -> (r: Self)
        ensures
            r == spec_byte_order_of(code),
    {
        if code == 0 {
            ByteOrder::LittleEndian
        } else if code == 1 {
            ByteOrder::BigEndian
        } else if code == 2 {
            ByteOrder::Vax
        } else if code == 3 {
            ByteOrder::Mixed
        } else {
            ByteOrder::NoOrder
        }
    }
}

/// The library's byte-order codes: little-endian 0, big-endian 1, VAX 2,
/// mixed 3; every other code reads as no particular order.
pub proof fn byte_order_codes_law(code: i32)
    ensures
        (spec_byte_order_of(code) == ByteOrder::LittleEndian) <==> code == 0,
        (spec_byte_order_of(code) == ByteOrder::BigEndian) <==> code == 1,
        (spec_byte_order_of(code) == ByteOrder::Vax) <==> code == 2,
        (spec_byte_order_of(code) == ByteOrder::Mixed) <==> code == 3,
        (spec_byte_order_of(code) == ByteOrder::NoOrder) <==> !(0 <= code <= 3),
{
}

} // verus!

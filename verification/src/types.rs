//! Descriptions of the element types that datasets and attributes hold, and
//! their sizes in memory.

use vstd::prelude::*;

verus! {

/// Width of an integer type.
#[derive(Clone, Copy, Debug, PartialEq, Eq)]
pub enum IntSize {
    U1,
    U2,
    U4,
    U8,
}

/// Width of a floating-point type.
#[derive(Clone, Copy, Debug, PartialEq, Eq)]
pub enum FloatSize {
    U4,
    U8,
}

/// The number of bytes of an integer width.
pub open spec fn int_bytes(s: IntSize) -> nat {
    match s {
        IntSize::U1 => 1,
        IntSize::U2 => 2,
        IntSize::U4 => 4,
        IntSize::U8 => 8,
    }
}

/// The number of bytes of a floating-point width.
pub open spec fn float_bytes(s: FloatSize) -> nat {
    match s {
        FloatSize::U4 => 4,
        FloatSize::U8 => 8,
    }
}

impl IntSize {
    /// The number of bytes.
    pub fn bytes(self) -> (r: usize)
        ensures
            r == int_bytes(self),
    {
        match self {
            IntSize::U1 => 1,
            IntSize::U2 => 2,
            IntSize::U4 => 4,
            IntSize::U8 => 8,
        }
    }

    /// The width of `size` bytes, if integers have one.
    pub fn from_int(size: usize) -> (r: Option<Self>)
        ensures
            r matches Some(s) ==> int_bytes(s) == size,
            r is None ==> !(size == 1 || size == 2 || size == 4 || size == 8),
    {
        if size == 1 {
            Some(IntSize::U1)
        } else if size == 2 {
            Some(IntSize::U2)
        } else if size == 4 {
            Some(IntSize::U4)
        } else if size == 8 {
            Some(IntSize::U8)
        } else {
            None
        }
    }
}

impl FloatSize {
    /// The number of bytes.
    pub fn bytes(self) -> (r: usize)
        ensures
            r == float_bytes(self),
    {
        match self {
            FloatSize::U4 => 4,
            FloatSize::U8 => 8,
        }
    }

    /// The width of `size` bytes, if floats have one.
    pub fn from_int(size: usize) -> (r: Option<Self>)
        ensures
            r matches Some(s) ==> float_bytes(s) == size,
            r is None ==> !(size == 4 || size == 8),
    {
        if size == 4 {
            Some(FloatSize::U4)
        } else if size == 8 {
            Some(FloatSize::U8)
        } else {
            None
        }
    }
}

/// One named value of an enumeration type.
#[derive(Clone, Debug, PartialEq, Eq)]
pub struct EnumMember {
    pub name: String,
    pub value: u64,
}

/// An enumeration type: its integer width and sign, and its members.
#[derive(Clone, Debug, PartialEq, Eq)]
pub struct EnumType {
    pub size: IntSize,
    pub signed: bool,
    pub members: Vec<EnumMember>,
}

/// One field of a compound type.
#[derive(Debug, PartialEq, Eq)]
pub struct CompoundField {
    pub name: String,
    pub ty: ValueType,
    pub offset: usize,
}

/// A compound type: its fields and its total size in bytes.
#[derive(Debug, PartialEq, Eq)]
pub struct CompoundType {
    pub fields: Vec<CompoundField>,
    pub size: usize,
}

/// The type of the elements of a dataset or an attribute.
#[derive(Debug, PartialEq, Eq)]
pub enum ValueType {
    Integer(IntSize),
    Unsigned(IntSize),
    Float(FloatSize),
    Boolean,
    Enum(EnumType),
    Compound(CompoundType),
    FixedArray(Box<ValueType>, usize),
    FixedAscii(usize),
    FixedUnicode(usize),
    VarLenArray(Box<ValueType>),
    VarLenAscii,
    VarLenUnicode,
}

/// Abstract value of an enumeration member.
pub struct EnumMemberView {
    pub name: Seq<char>,
    pub value: u64,
}

/// Abstract value of a compound field.
pub struct FieldView {
    pub name: Seq<char>,
    pub ty: ValueTypeView,
    pub offset: usize,
}

/// Abstract value of a [`ValueType`].
pub enum ValueTypeView {
    Integer(IntSize),
    Unsigned(IntSize),
    Float(FloatSize),
    Boolean,
    Enum { width: IntSize, signed: bool, members: Seq<EnumMemberView> },
    Compound { fields: Seq<FieldView>, size: usize },
    FixedArray(Box<ValueTypeView>, usize),
    FixedAscii(usize),
    FixedUnicode(usize),
    VarLenArray(Box<ValueTypeView>),
    VarLenAscii,
    VarLenUnicode,
}

/// The abstract values of enumeration members.
pub open spec fn members_view(m: Seq<EnumMember>) -> Seq<EnumMemberView> {
    Seq::new(m.len(), |i: int| EnumMemberView { name: m[i].name@, value: m[i].value })
}

/// The abstract value of a type.
pub open spec fn type_view(t: ValueType) -> ValueTypeView
    decreases t, 0nat,
{
    match t {
        ValueType::Integer(s) => ValueTypeView::Integer(s),
        ValueType::Unsigned(s) => ValueTypeView::Unsigned(s),
        ValueType::Float(s) => ValueTypeView::Float(s),
        ValueType::Boolean => ValueTypeView::Boolean,
        ValueType::Enum(e) => ValueTypeView::Enum { width: e.size, signed: e.signed, members: members_view(e.members@) },
        ValueType::Compound(c) => ValueTypeView::Compound { fields: fields_view(c.fields@, c.fields@.len()), size: c.size },
        ValueType::FixedArray(b, n) => ValueTypeView::FixedArray(Box::new(type_view(*b)), n),
        ValueType::FixedAscii(n) => ValueTypeView::FixedAscii(n),
        ValueType::FixedUnicode(n) => ValueTypeView::FixedUnicode(n),
        ValueType::VarLenArray(b) => ValueTypeView::VarLenArray(Box::new(type_view(*b))),
        ValueType::VarLenAscii => ValueTypeView::VarLenAscii,
        ValueType::VarLenUnicode => ValueTypeView::VarLenUnicode,
    }
}

/// The abstract values of the first `n` fields.
pub open spec fn fields_view(f: Seq<CompoundField>, n: nat) -> Seq<FieldView>
    decreases f, n,
{
    if n == 0 || n > f.len() {
        Seq::empty()
    } else {
        fields_view(f, (n - 1) as nat).push(
            FieldView { name: f[n - 1].name@, ty: type_view(f[n - 1].ty), offset: f[n - 1].offset },
        )
    }
}

impl View for ValueType {
    type V = ValueTypeView;

    open spec fn view(&self) -> ValueTypeView {
        type_view(*self)
    }
}

/// The number of bytes of a pointer.
pub open spec fn pointer_bytes() -> nat {
    (usize::BITS / 8) as nat
}

/// The size in bytes of a value of a type.
pub open spec fn spec_size(t: ValueTypeView) -> int
    decreases t,
{
    match t {
        ValueTypeView::Integer(s) => int_bytes(s) as int,
        ValueTypeView::Unsigned(s) => int_bytes(s) as int,
        ValueTypeView::Float(s) => float_bytes(s) as int,
        ValueTypeView::Boolean => 1,
        ValueTypeView::Enum { width, .. } => int_bytes(width) as int,
        ValueTypeView::Compound { size, .. } => size as int,
        ValueTypeView::FixedArray(b, n) => spec_size(*b) * n,
        ValueTypeView::FixedAscii(n) => n as int,
        ValueTypeView::FixedUnicode(n) => n as int,
        ValueTypeView::VarLenArray(_) => 2 * (pointer_bytes() as int),
        ValueTypeView::VarLenAscii => pointer_bytes() as int,
        ValueTypeView::VarLenUnicode => pointer_bytes() as int,
    }
}

/// Every size met while computing the size of a type fits in a `usize`.
pub open spec fn size_fits(t: ValueTypeView) -> bool
    decreases t,
{
    &&& spec_size(t) <= usize::MAX
    &&& match t {
        ValueTypeView::FixedArray(b, _) => size_fits(*b),
        _ => true,
    }
}

impl EnumType {
    /// The integer type the enumeration is stored as.
    pub fn base_type(&self) -> (r: ValueType)
        ensures
            r@ == (if self.signed { ValueTypeView::Integer(self.size) } else { ValueTypeView::Unsigned(self.size) }),
    {
        if self.signed {
            ValueType::Integer(self.size)
        } else {
            ValueType::Unsigned(self.size)
        }
    }
}

fn pointer_size() -> (r: usize)
    ensures
        r == pointer_bytes(),
{
    (usize::BITS / 8) as usize
}

impl ValueType {
    /// The size in bytes of a value of the type.
    pub fn size(&self) -> (r: usize)
        requires
            size_fits(self@),
        ensures
            r == spec_size(self@),
        decreases self,
    {
        match self {
            ValueType::Integer(s) => s.bytes(),
            ValueType::Unsigned(s) => s.bytes(),
            ValueType::Float(s) => s.bytes(),
            ValueType::Boolean => 1,
            ValueType::Enum(e) => e.size.bytes(),
            ValueType::Compound(c) => c.size,
            ValueType::FixedArray(b, n) => {
                let inner = b.size();
                inner * *n
            },
            ValueType::FixedAscii(n) => *n,
            ValueType::FixedUnicode(n) => *n,
            ValueType::VarLenArray(_) => 2 * pointer_size(),
            ValueType::VarLenAscii => pointer_size(),
            ValueType::VarLenUnicode => pointer_size(),
        }
    }
}

fn copy_string(s: &String) -> (r: String)
    ensures
        r@ == s@,
{
    s.clone()
}

impl EnumType {
    /// A copy of the enumeration type.
    pub fn duplicate(&self) -> (r: Self)
        ensures
            r.size == self.size,
            r.signed == self.signed,
            members_view(r.members@) == members_view(self.members@),
    {
        let mut members: Vec<EnumMember> = Vec::new();
        let mut i: usize = 0;
        while i < self.members.len()
            invariant
                i <= self.members@.len(),
                members@.len() == i,
                forall|k: int| 0 <= k < i ==> (#[trigger] members@[k]).name@ == self.members@[k].name@
                    && members@[k].value == self.members@[k].value,
            decreases self.members@.len() - i,
        {
            let m = &self.members[i];
            members.push(EnumMember { name: copy_string(&m.name), value: m.value });
            i = i + 1;
        }
        let r = EnumType { size: self.size, signed: self.signed, members };
        assert(members_view(r.members@) =~= members_view(self.members@));
        r
    }
}

impl ValueType {
    /// A copy of the type.
    pub fn duplicate(&self) -> (r: Self)
        ensures
            r@ == self@,
        decreases self,
    {
        match self {
            ValueType::Integer(s) => ValueType::Integer(*s),
            ValueType::Unsigned(s) => ValueType::Unsigned(*s),
            ValueType::Float(s) => ValueType::Float(*s),
            ValueType::Boolean => ValueType::Boolean,
            ValueType::Enum(e) => ValueType::Enum(e.duplicate()),
            ValueType::Compound(c) => {
                let mut fields: Vec<CompoundField> = Vec::new();
                let mut i: usize = 0;
                while i < c.fields.len()
                    invariant
                        i <= c.fields@.len(),
                        fields@.len() == i,
                        *self == ValueType::Compound(*c),
                        fields_view(fields@, i as nat) == fields_view(c.fields@, i as nat),
                    decreases c.fields@.len() - i,
                {
                    let f = &c.fields[i];
                    proof {
                        let fs = c.fields@;
                        assert((*self)->Compound_0 == *c);
                        assert(decreases_to!(*self => (*self)->Compound_0));
                        assert(decreases_to!(*c => c.fields));
                        assert(decreases_to!(c.fields => fs));
                        assert(decreases_to!(fs => fs[i as int]));
                        assert(decreases_to!(fs[i as int] => fs[i as int].ty));
                        assert(decreases_to!(*self => c.fields@[i as int].ty));
                    }
                    let ty = f.ty.duplicate();
                    let ghost before = fields@;
                    fields.push(CompoundField { name: copy_string(&f.name), ty, offset: f.offset });
                    proof {
                        lemma_fields_view_prefix(fields@, before, i as nat);
                    }
                    i = i + 1;
                }
                ValueType::Compound(CompoundType { fields, size: c.size })
            },
            ValueType::FixedArray(b, n) => ValueType::FixedArray(Box::new(b.duplicate()), *n),
            ValueType::FixedAscii(n) => ValueType::FixedAscii(*n),
            ValueType::FixedUnicode(n) => ValueType::FixedUnicode(*n),
            ValueType::VarLenArray(b) => ValueType::VarLenArray(Box::new(b.duplicate())),
            ValueType::VarLenAscii => ValueType::VarLenAscii,
            ValueType::VarLenUnicode => ValueType::VarLenUnicode,
        }
    }
}

/// The view of the first `n` fields depends on those fields alone.
pub proof fn lemma_fields_view_prefix(a: Seq<CompoundField>, b: Seq<CompoundField>, n: nat)
    requires
        n <= a.len(),
        n <= b.len(),
        forall|i: int| 0 <= i < n ==> a[i] == b[i],
    ensures
        fields_view(a, n) == fields_view(b, n),
    decreases n,
{
    if n > 0 {
        lemma_fields_view_prefix(a, b, (n - 1) as nat);
    }
}

/// The view of the fields has one entry per field.
pub proof fn lemma_fields_view_len(f: Seq<CompoundField>, n: nat)
    requires
        n <= f.len(),
    ensures
        fields_view(f, n).len() == n,
    decreases n,
{
    if n > 0 {
        lemma_fields_view_len(f, (n - 1) as nat);
    }
}

/// The view of all fields begins with the view of the first `n`.
pub proof fn lemma_fields_view_take(f: Seq<CompoundField>, n: nat, k: nat)
    requires
        n <= k <= f.len(),
    ensures
        fields_view(f, k).take(n as int) == fields_view(f, n),
    decreases k,
{
    lemma_fields_view_len(f, k);
    if k > n {
        lemma_fields_view_take(f, n, (k - 1) as nat);
        lemma_fields_view_len(f, (k - 1) as nat);
        assert(fields_view(f, k).take(n as int) =~= fields_view(f, (k - 1) as nat).take(n as int));
    } else {
        assert(fields_view(f, k).take(n as int) =~= fields_view(f, n));
    }
}

/// Types whose values can be stored: each has a description of its element
/// type.
pub trait ToValueType {
    /// The description of the element type.
    spec fn spec_value_type() -> ValueTypeView;

    fn value_type() -> (r: ValueType)
        ensures
            r@ == Self::spec_value_type();
}

impl ToValueType for i8 {
    open spec fn spec_value_type() -> ValueTypeView {
        ValueTypeView::Integer(IntSize::U1)
    }

    fn value_type() -> (r: ValueType)
        ensures
            r@ == ValueTypeView::Integer(IntSize::U1),
    {
        ValueType::Integer(IntSize::U1)
    }
}

impl ToValueType for i16 {
    open spec fn spec_value_type() -> ValueTypeView {
        ValueTypeView::Integer(IntSize::U2)
    }

    fn value_type() -> (r: ValueType)
        ensures
            r@ == ValueTypeView::Integer(IntSize::U2),
    {
        ValueType::Integer(IntSize::U2)
    }
}

impl ToValueType for i32 {
    open spec fn spec_value_type() -> ValueTypeView {
        ValueTypeView::Integer(IntSize::U4)
    }

    fn value_type() -> (r: ValueType)
        ensures
            r@ == ValueTypeView::Integer(IntSize::U4),
    {
        ValueType::Integer(IntSize::U4)
    }
}

impl ToValueType for i64 {
    open spec fn spec_value_type() -> ValueTypeView {
        ValueTypeView::Integer(IntSize::U8)
    }

    fn value_type() -> (r: ValueType)
        ensures
            r@ == ValueTypeView::Integer(IntSize::U8),
    {
        ValueType::Integer(IntSize::U8)
    }
}

impl ToValueType for u8 {
    open spec fn spec_value_type() -> ValueTypeView {
        ValueTypeView::Unsigned(IntSize::U1)
    }

    fn value_type() -> (r: ValueType)
        ensures
            r@ == ValueTypeView::Unsigned(IntSize::U1),
    {
        ValueType::Unsigned(IntSize::U1)
    }
}

impl ToValueType for u16 {
    open spec fn spec_value_type() -> ValueTypeView {
        ValueTypeView::Unsigned(IntSize::U2)
    }

    fn value_type() -> (r: ValueType)
        ensures
            r@ == ValueTypeView::Unsigned(IntSize::U2),
    {
        ValueType::Unsigned(IntSize::U2)
    }
}

impl ToValueType for u32 {
    open spec fn spec_value_type() -> ValueTypeView {
        ValueTypeView::Unsigned(IntSize::U4)
    }

    fn value_type() -> (r: ValueType)
        ensures
            r@ == ValueTypeView::Unsigned(IntSize::U4),
    {
        ValueType::Unsigned(IntSize::U4)
    }
}

impl ToValueType for u64 {
    open spec fn spec_value_type() -> ValueTypeView {
        ValueTypeView::Unsigned(IntSize::U8)
    }

    fn value_type() -> (r: ValueType)
        ensures
            r@ == ValueTypeView::Unsigned(IntSize::U8),
    {
        ValueType::Unsigned(IntSize::U8)
    }
}

/// The integer width of a pointer-sized integer.
pub open spec fn pointer_int_size() -> IntSize {
    if usize::BITS == 32 {
        IntSize::U4
    } else {
        IntSize::U8
    }
}

fn pointer_width() -> (r: IntSize)
    ensures
        r == pointer_int_size(),
{
    if usize::BITS == 32 {
        IntSize::U4
    } else {
        IntSize::U8
    }
}

impl ToValueType for isize {
    open spec fn spec_value_type() -> ValueTypeView {
        ValueTypeView::Integer(pointer_int_size())
    }

    fn value_type() -> (r: ValueType)
        ensures
            r@ == ValueTypeView::Integer(pointer_int_size()),
    {
        ValueType::Integer(pointer_width())
    }
}

impl ToValueType for usize {
    open spec fn spec_value_type() -> ValueTypeView {
        ValueTypeView::Unsigned(pointer_int_size())
    }

    fn value_type() -> (r: ValueType)
        ensures
            r@ == ValueTypeView::Unsigned(pointer_int_size()),
    {
        ValueType::Unsigned(pointer_width())
    }
}

impl ToValueType for bool {
    open spec fn spec_value_type() -> ValueTypeView {
        ValueTypeView::Boolean
    }

    fn value_type() -> (r: ValueType)
        ensures
            r@ == ValueTypeView::Boolean,
    {
        ValueType::Boolean
    }
}

/// Fixed-size arrays: their item type and their length.
pub trait Array {
    type Item;

    /// The number of items.
    spec fn spec_capacity() -> usize;

    fn capacity() -> (r: usize)
        ensures
            r == Self::spec_capacity();
}

impl<T, const N: usize> Array for [T; N] {
    type Item = T;

    open spec fn spec_capacity() -> usize {
        N
    }

    fn capacity() -> (r: usize)
        ensures
            r == N,
    {
        N
    }
}

impl<T: ToValueType, const N: usize> ToValueType for [T; N] {
    open spec fn spec_value_type() -> ValueTypeView {
        ValueTypeView::FixedArray(Box::new(T::spec_value_type()), N)
    }

    fn value_type() -> (r: ValueType)
        ensures
            r@ == ValueTypeView::FixedArray(Box::new(T::spec_value_type()), N),
    {
        ValueType::FixedArray(Box::new(T::value_type()), N)
    }
}

} // verus!

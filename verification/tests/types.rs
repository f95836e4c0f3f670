use std::mem;

use hdf5::datatype::{CharSet, Datatype, Sign};
use hdf5::types::{
    Array, CompoundField, CompoundType, EnumMember, EnumType, FloatSize, IntSize, ToValueType,
    ValueType,
};
use hdf5::types::ValueType::{Boolean, Enum, FixedArray, Float, Integer, Unsigned};

#[test]
pub fn test_value_type_size() {
    assert_eq!(bool::value_type().size(), 1);
    assert_eq!(i16::value_type().size(), 2);
    assert_eq!(u32::value_type().size(), 4);
    assert_eq!(usize::value_type().size(), mem::size_of::<usize>());
    assert_eq!(Float(FloatSize::U8).size(), mem::size_of::<f64>());
}

#[test]
pub fn test_scalar_value_types() {
    assert_eq!(bool::value_type(), Boolean);
    assert_eq!(i8::value_type(), Integer(IntSize::U1));
    assert_eq!(i16::value_type(), Integer(IntSize::U2));
    assert_eq!(i32::value_type(), Integer(IntSize::U4));
    assert_eq!(i64::value_type(), Integer(IntSize::U8));
    assert_eq!(u8::value_type(), Unsigned(IntSize::U1));
    assert_eq!(u16::value_type(), Unsigned(IntSize::U2));
    assert_eq!(u32::value_type(), Unsigned(IntSize::U4));
    assert_eq!(u64::value_type(), Unsigned(IntSize::U8));
}

#[test]
pub fn types_test_ptr_sized_ints() {
    if mem::size_of::<usize>() == 8 {
        assert_eq!(isize::value_type(), Integer(IntSize::U8));
        assert_eq!(usize::value_type(), Unsigned(IntSize::U8));
    } else {
        assert_eq!(isize::value_type(), Integer(IntSize::U4));
        assert_eq!(usize::value_type(), Unsigned(IntSize::U4));
    }
}

#[test]
pub fn test_array_trait() {
    type T = [u32; 256];
    assert_eq!(<T as Array>::capacity(), 256);
    assert_eq!(<[u8; 3] as Array>::capacity(), 3);
}

#[test]
pub fn test_fixed_size_array() {
    type T = [u32; 256];
    assert_eq!(T::value_type(), FixedArray(Box::new(Unsigned(IntSize::U4)), 256));
    type S = [T; 4];
    assert_eq!(S::value_type(), FixedArray(Box::new(T::value_type()), 4));
}

#[allow(dead_code)]
#[derive(Clone, Copy, Debug)]
enum Foo {
    A,
    B,
}

impl Foo {
    fn value_type() -> ValueType {
        ValueType::Enum(EnumType {
            size: IntSize::U8,
            signed: i64::MIN != 0,
            members: vec![
                EnumMember { name: "A".into(), value: 1i64 as u64 },
                EnumMember { name: "B".into(), value: -2i64 as u64 },
            ],
        })
    }
}

#[allow(dead_code)]
#[derive(Clone, Copy, Debug)]
pub enum Bar {
    A,
    B,
}

impl Bar {
    fn value_type() -> ValueType {
        ValueType::Enum(EnumType {
            size: IntSize::U1,
            signed: u8::MIN != 0,
            members: vec![
                EnumMember { name: "A".into(), value: 1u8 as u64 },
                EnumMember { name: "B".into(), value: 2u8 as u64 },
            ],
        })
    }
}

#[test]
pub fn test_enum() {
    assert_eq!(
        Foo::value_type(),
        Enum(EnumType {
            size: IntSize::U8,
            signed: true,
            members: vec![
                EnumMember { name: "A".into(), value: 1 },
                EnumMember { name: "B".into(), value: -2i64 as u64 },
            ]
        })
    );
    assert_eq!(Foo::value_type().size(), 8);

    assert_eq!(
        Bar::value_type(),
        Enum(EnumType {
            size: IntSize::U1,
            signed: false,
            members: vec![
                EnumMember { name: "A".into(), value: 1 },
                EnumMember { name: "B".into(), value: 2 },
            ]
        })
    );
    assert_eq!(format!("{:?}", Bar::A), "A");
    assert_eq!(Bar::value_type().size(), 1);
}

fn check_roundtrip(vt: ValueType, expected: ValueType) {
    assert_eq!(vt, expected);
    let dt = Datatype::from_descriptor(&vt).unwrap();
    assert_eq!(vt, dt.to_value_type().unwrap());
}

fn a_type() -> ValueType {
    ValueType::Compound(CompoundType {
        fields: vec![
            CompoundField { name: "a".into(), ty: i64::value_type(), offset: 0 },
            CompoundField { name: "b".into(), ty: u64::value_type(), offset: 8 },
        ],
        size: 16,
    })
}

#[test]
pub fn test_datatype_roundtrip() {
    check_roundtrip(i8::value_type(), ValueType::Integer(IntSize::U1));
    check_roundtrip(i16::value_type(), ValueType::Integer(IntSize::U2));
    check_roundtrip(i32::value_type(), ValueType::Integer(IntSize::U4));
    check_roundtrip(i64::value_type(), ValueType::Integer(IntSize::U8));
    check_roundtrip(u8::value_type(), ValueType::Unsigned(IntSize::U1));
    check_roundtrip(u16::value_type(), ValueType::Unsigned(IntSize::U2));
    check_roundtrip(u32::value_type(), ValueType::Unsigned(IntSize::U4));
    check_roundtrip(u64::value_type(), ValueType::Unsigned(IntSize::U8));
    check_roundtrip(ValueType::Float(FloatSize::U4), ValueType::Float(FloatSize::U4));
    check_roundtrip(ValueType::Float(FloatSize::U8), ValueType::Float(FloatSize::U8));
    check_roundtrip(bool::value_type(), ValueType::Boolean);
    check_roundtrip(<[bool; 5]>::value_type(), ValueType::FixedArray(Box::new(ValueType::Boolean), 5));
    check_roundtrip(
        ValueType::VarLenArray(Box::new(bool::value_type())),
        ValueType::VarLenArray(Box::new(ValueType::Boolean)),
    );
    check_roundtrip(ValueType::FixedAscii(5), ValueType::FixedAscii(5));
    check_roundtrip(ValueType::FixedUnicode(5), ValueType::FixedUnicode(5));
    check_roundtrip(ValueType::VarLenAscii, ValueType::VarLenAscii);
    check_roundtrip(ValueType::VarLenUnicode, ValueType::VarLenUnicode);
    let x_vt = ValueType::Enum(EnumType {
        size: IntSize::U8,
        signed: true,
        members: vec![
            EnumMember { name: "A".into(), value: 1 },
            EnumMember { name: "B".into(), value: -2i64 as u64 },
        ],
    });
    check_roundtrip(Foo::value_type(), x_vt.duplicate());
    check_roundtrip(a_type(), a_type());
    let c_vt = ValueType::Compound(CompoundType {
        fields: vec![
            CompoundField { name: "a".into(), ty: ValueType::FixedArray(Box::new(x_vt.duplicate()), 2), offset: 0 },
            CompoundField {
                name: "b".into(),
                ty: ValueType::FixedArray(Box::new(ValueType::FixedArray(Box::new(a_type()), 4)), 32),
                offset: 2 * 8,
            },
        ],
        size: 2 * 8 + 4 * 32 * 16,
    });
    check_roundtrip(c_vt.duplicate(), c_vt);
}

#[test]
pub fn test_eq() {
    assert!(Datatype::from_type::<u32>().unwrap() == Datatype::from_type::<u32>().unwrap());
    assert!(Datatype::from_type::<u32>().unwrap() != Datatype::from_type::<u16>().unwrap());
}

#[test]
pub fn datatype_test_debug_display() {
    assert_eq!(Datatype::from_type::<u32>().unwrap().to_string().unwrap(), "<HDF5 datatype: 32-bit unsigned integer>");
    assert_eq!(Datatype::from_type::<i8>().unwrap().to_string().unwrap(), "<HDF5 datatype: 8-bit signed integer>");
    let f64_type = Datatype::from_descriptor(&ValueType::Float(FloatSize::U8)).unwrap();
    assert_eq!(f64_type.to_string().unwrap(), "<HDF5 datatype: 64-bit float>");
}

#[test]
fn test_descriptor_errors() {
    let msg = |d: Datatype| d.to_descriptor().unwrap_err().message();
    assert_eq!(msg(Datatype::Integer { size: 4, precision: 32, sign: Sign::Invalid }), "Invalid sign of integer datatype");
    assert_eq!(msg(Datatype::Integer { size: 3, precision: 24, sign: Sign::Unsigned }), "Invalid size of integer datatype");
    assert_eq!(msg(Datatype::Float { size: 2, precision: 16 }), "Invalid size of float datatype");
    assert_eq!(
        msg(Datatype::Enum { base: Box::new(Datatype::Float { size: 4, precision: 32 }), members: vec![] }),
        "Invalid base type for enum datatype"
    );
    assert_eq!(
        msg(Datatype::Array { base: Box::new(Datatype::Other), dims: vec![2, 3] }),
        "Multi-dimensional array datatypes are not supported"
    );
    assert_eq!(
        msg(Datatype::String { size: 4, variable: false, cset: CharSet::Other }),
        "Invalid encoding for string datatype"
    );
    assert_eq!(msg(Datatype::Other), "Unsupported datatype class");
    assert!(Datatype::Other.to_string().is_none());
}

#[test]
fn test_descriptor_nul_names() {
    let e = ValueType::Enum(EnumType {
        size: IntSize::U1,
        signed: false,
        members: vec![
            EnumMember { name: "A".into(), value: 1 },
            EnumMember { name: "B\0".into(), value: 2 },
            EnumMember { name: "\0C".into(), value: 3 },
        ],
    });
    let err = Datatype::from_descriptor(&e).unwrap_err();
    assert_eq!(err.message(), "null byte in string: \"B\\0\"");

    let c = ValueType::Compound(CompoundType {
        fields: vec![
            CompoundField { name: "x".into(), ty: e.duplicate(), offset: 0 },
            CompoundField { name: "y\0".into(), ty: Integer(IntSize::U4), offset: 1 },
        ],
        size: 5,
    });
    assert_eq!(Datatype::from_descriptor(&c).unwrap_err().message(), "null byte in string: \"B\\0\"");

    let d = ValueType::Compound(CompoundType {
        fields: vec![
            CompoundField { name: "y\0".into(), ty: e.duplicate(), offset: 0 },
        ],
        size: 1,
    });
    assert_eq!(Datatype::from_descriptor(&d).unwrap_err().message(), "null byte in string: \"y\\0\"");

    let arr = FixedArray(Box::new(d), 3);
    assert_eq!(Datatype::from_descriptor(&arr).unwrap_err().message(), "null byte in string: \"y\\0\"");

    let ok = ValueType::Enum(EnumType {
        size: IntSize::U1,
        signed: false,
        members: vec![EnumMember { name: "A".into(), value: 1 }],
    });
    assert!(Datatype::from_descriptor(&ok).is_ok());
}

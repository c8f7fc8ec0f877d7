use open_cl::number_vector::{ClInt8, ClShort3, ClUchar16};
use open_cl::number::{
    ClBool, ClChar, ClHalf, ClInt, ClLong, ClShort, ClUchar, ClUint, ClUlong, ClUshort,
    FromClNumber, ToClNumber, Zeroed,
};
use open_cl::number_type::{NumberType, NumberTypeKind, NumberTyped, NumberTypedT, TypeError};

#[test]
fn bool_converts_to_and_from_cl_bool() {
    let t: u32 = true.to_cl_number();
    let f: u32 = false.to_cl_number();
    assert_eq!((t, f), (1, 0));
    assert!(bool::from_cl_number(1u32));
    assert!(!bool::from_cl_number(0u32));
}

#[test]
fn cl_bool_round_trips() {
    let v: u32 = ClBool::True.to_cl_number();
    assert_eq!(v, 1);
    let back = ClBool::from_cl_number(v);
    assert!(matches!(back, ClBool::True));
    let z: u32 = ClBool::from_cl_number(0u32).to_cl_number();
    assert_eq!(z, 0);
}

#[test]
fn newtypes_wrap_and_unwrap_their_values() {
    let h: u16 = ClHalf::from_cl_number(0x3c00u16).to_cl_number();
    assert_eq!(h, 0x3c00);
    let c: i8 = ClChar::from_cl_number(-5i8).to_cl_number();
    assert_eq!(c, -5);
    let u: u8 = ClUchar::from_cl_number(200u8).to_cl_number();
    assert_eq!(u, 200);
    let s: i16 = ClShort::from_cl_number(-300i16).to_cl_number();
    assert_eq!(s, -300);
    let us: u16 = ClUshort::from_cl_number(300u16).to_cl_number();
    assert_eq!(us, 300);
    let i: i32 = ClInt::from_cl_number(-70000i32).to_cl_number();
    assert_eq!(i, -70000);
    let ui: u32 = ClUint::from_cl_number(70000u32).to_cl_number();
    assert_eq!(ui, 70000);
    let l: i64 = ClLong::from_cl_number(-1i64).to_cl_number();
    assert_eq!(l, -1);
    let ul: u64 = ClUlong::from_cl_number(u64::MAX).to_cl_number();
    assert_eq!(ul, u64::MAX);
    assert_eq!(i32::from_cl_number(9i32), 9);
}

#[test]
fn primitive_number_types() {
    assert_eq!(<u8 as NumberTypedT>::number_type(), NumberType::ClUchar(NumberTypeKind::Primitive));
    assert_eq!(<i64 as NumberTypedT>::number_type(), NumberType::ClLong(NumberTypeKind::Primitive));
    assert_eq!(<ClUint as NumberTypedT>::number_type(), NumberType::ClUint(NumberTypeKind::Primitive));
    assert!(<u32 as NumberTypedT>::matches(NumberType::ClUint(NumberTypeKind::Primitive)));
    assert!(!<u32 as NumberTypedT>::matches(NumberType::ClInt(NumberTypeKind::Primitive)));
    <i16 as NumberTypedT>::match_or_panic(NumberType::ClShort(NumberTypeKind::Primitive));
    assert_eq!(u16::zeroed(), 0);
    assert_eq!(i64::zeroed(), 0);
}

#[test]
fn vectors_know_their_number_type() {
    let v: Vec<i32> = vec![1, 2, 3];
    assert_eq!(v.number_type(), NumberType::ClInt(NumberTypeKind::Primitive));
    assert!(v.matches(NumberType::ClInt(NumberTypeKind::Primitive)));
}

#[test]
fn number_type_sizes() {
    assert_eq!(NumberType::ClChar(NumberTypeKind::Primitive).size_of_t(), 1);
    assert_eq!(NumberType::ClInt(NumberTypeKind::Four).size_of_t(), 16);
    assert_eq!(NumberType::ClFloat(NumberTypeKind::Three).size_of_t(), 12);
    assert_eq!(NumberType::ClInt(NumberTypeKind::Eight).size_of_t(), 32);
    assert_eq!(NumberType::ClUlong(NumberTypeKind::Sixteen).size_of_t(), 128);
    assert_eq!(NumberType::ClHalf.size_of_t(), 2);
    assert_eq!(NumberType::ClBool.size_of_t(), 4);
    assert_eq!(NumberType::ClDouble.size_of_t(), 8);
    assert_eq!(NumberType::SizeT.size_of_t(), std::mem::size_of::<usize>());
}

#[test]
fn number_type_checks() {
    let a = NumberType::ClUint(NumberTypeKind::Two);
    let b = NumberType::ClUint(NumberTypeKind::Four);
    assert!(a.matches(a));
    assert!(!a.matches(b));
    assert_eq!(a.type_check(a), Ok(()));
    assert_eq!(a.type_check(b), Err(TypeError::TypeMismatch(a, b)));
    a.match_or_panic(a);
    let invalid = TypeError::InvalidValue(NumberType::ClBool, "2".to_string());
    assert_ne!(invalid, TypeError::TypeMismatch(a, b));
}

#[test]
fn cl_bool_dereferences_to_its_cl_value() {
    assert_eq!(*ClBool::True, 1);
    assert_eq!(*ClBool::False, 0);
}

#[test]
fn cl_half_dereferences_to_its_bits() {
    let h = ClHalf::from_cl_number(0x3C00u16);
    assert_eq!(*h, 0x3C00);
}

#[test]
fn vector_number_types_have_the_size_of_their_lanes() {
    assert_eq!(<[i32; 8]>::number_type(), NumberType::ClInt(NumberTypeKind::Eight));
    assert_eq!(<[i32; 8]>::number_type().size_of_t(), std::mem::size_of::<[i32; 8]>());
    assert_eq!(<[u64; 16]>::number_type().size_of_t(), std::mem::size_of::<[u64; 16]>());
    assert_eq!(<[u8; 2]>::number_type().size_of_t(), 2);
    assert_eq!(<[i16; 4]>::zeroed(), [0i16; 4]);
    let v = ClInt8::from_cl_number([1, 2, 3, 4, 5, 6, 7, 8]);
    assert_eq!(*v, [1, 2, 3, 4, 5, 6, 7, 8]);
    assert_eq!(ClInt8::number_type(), NumberType::ClInt(NumberTypeKind::Eight));
    let u = ClUchar16::from_cl_number([9u8; 16]);
    assert_eq!(u.to_cl_number(), [9u8; 16]);
    let s = ClShort3::from_cl_number([1i16, 2, 3]);
    assert_eq!(s[2], 3);
}

#[test]
fn primitive_number_types_have_the_size_of_their_numbers() {
    assert_eq!(i8::number_type().size_of_t(), std::mem::size_of::<i8>());
    assert_eq!(u16::number_type().size_of_t(), std::mem::size_of::<u16>());
    assert_eq!(i32::number_type().size_of_t(), std::mem::size_of::<i32>());
    assert_eq!(u64::number_type().size_of_t(), std::mem::size_of::<u64>());
}

use vstd::prelude::*;

use crate::number_type::{NumberType, NumberTypeKind, NumberTypedT};

verus! {

/// OpenCL's `cl_char`.
#[allow(non_camel_case_types)]
pub type cl_char = i8;

/// OpenCL's `cl_uchar`.
#[allow(non_camel_case_types)]
pub type cl_uchar = u8;

/// OpenCL's `cl_short`.
#[allow(non_camel_case_types)]
pub type cl_short = i16;

/// OpenCL's `cl_ushort`.
#[allow(non_camel_case_types)]
pub type cl_ushort = u16;

/// OpenCL's `cl_int`.
#[allow(non_camel_case_types)]
pub type cl_int = i32;

/// OpenCL's `cl_uint`.
#[allow(non_camel_case_types)]
pub type cl_uint = u32;

/// OpenCL's `cl_long`.
#[allow(non_camel_case_types)]
pub type cl_long = i64;

/// OpenCL's `cl_ulong`.
#[allow(non_camel_case_types)]
pub type cl_ulong = u64;

/// OpenCL's `cl_bool`, held in an unsigned 32-bit integer.
#[allow(non_camel_case_types)]
pub type cl_bool = u32;

/// OpenCL's `cl_half`: the bits of a 16-bit floating-point value.
#[allow(non_camel_case_types)]
pub type cl_half = u16;

/// The zero value of a number type.
pub trait Zeroed: Sized {
    fn zeroed() -> Self;
}

/// A number type that OpenCL kernels can take and buffers can hold.
pub trait ClNumber: Sized + Clone + Copy + Send + Sync + Zeroed + NumberTypedT {}

/// Conversion of a value into the OpenCL number type `T`.
pub trait ToClNumber<T> {
    fn to_cl_number(self) -> T;
}

/// Conversion of a value of the OpenCL number type `T` into `Self`.
pub trait FromClNumber<T>: Sized {
    /// Whether the conversion accepts `value`; it stops the program on any other value.
    spec fn accepts(value: T) -> bool;

    fn from_cl_number(value: T) -> Self
        requires
            Self::accepts(value),
    ;
}

/// A Boolean condition: true (1) or false (0).
pub enum ClBool {
    True,
    False,
}

impl ClBool {
    /// The `cl_bool` that stands for the condition.
    pub open spec fn cl_value(self) -> cl_bool {
        match self {
            ClBool::True => 1,
            ClBool::False => 0,
        }
    }
}

/// The `cl_bool` for false.
const CL_BOOL_FALSE: cl_bool = 0;

/// The `cl_bool` for true.
const CL_BOOL_TRUE: cl_bool = 1;

impl core::ops::Deref for ClBool {
    type Target = cl_bool;

    /// The `cl_bool` that stands for the condition.
    fn deref(&self) -> (b: &cl_bool)
        ensures
            *b == self.cl_value(),
    {
        match self {
            ClBool::True => &CL_BOOL_TRUE,
            ClBool::False => &CL_BOOL_FALSE,
        }
    }
}

impl ToClNumber<cl_bool> for bool {
    fn to_cl_number(self) -> (b: cl_bool)
        ensures
            b == (if self { 1u32 } else { 0u32 }),
    {
        match self {
            true => 1,
            false => 0,
        }
    }
}

impl ToClNumber<cl_bool> for ClBool {
    fn to_cl_number(self) -> (b: cl_bool)
        ensures
            b == self.cl_value(),
    {
        match self {
            ClBool::True => 1,
            ClBool::False => 0,
        }
    }
}

impl FromClNumber<cl_bool> for bool {
    /// Only 0 and 1 are `cl_bool` values.
    open spec fn accepts(value: cl_bool) -> bool {
        value == 0 || value == 1
    }

    fn from_cl_number(b: cl_bool) -> (r: bool)
        ensures
            r == (b == 1),
    {
        match b {
            0 => false,
            _ => true,
        }
    }
}

impl FromClNumber<cl_bool> for ClBool {
    /// Only 0 and 1 are `cl_bool` values.
    open spec fn accepts(value: cl_bool) -> bool {
        value == 0 || value == 1
    }

    fn from_cl_number(b: cl_bool) -> (r: ClBool)
        ensures
            r.cl_value() == b,
    {
        if bool::from_cl_number(b) {
            ClBool::True
        } else {
            ClBool::False
        }
    }
}

/// Converting a Boolean into a `cl_bool` and back gives the same Boolean.
pub proof fn lemma_bool_round_trip(b: bool, c: cl_bool, back: bool)
    requires
        call_ensures(<bool as ToClNumber<cl_bool>>::to_cl_number, (b,), c),
        call_ensures(<bool as FromClNumber<cl_bool>>::from_cl_number, (c,), back),
    ensures
        <bool as FromClNumber<cl_bool>>::accepts(c),
        back == b,
{
}

/// Converting a `cl_bool` value into a Boolean and back gives the same value.
pub proof fn lemma_cl_bool_value_round_trip(c: cl_bool, b: bool, back: cl_bool)
    requires
        <bool as FromClNumber<cl_bool>>::accepts(c),
        call_ensures(<bool as FromClNumber<cl_bool>>::from_cl_number, (c,), b),
        call_ensures(<bool as ToClNumber<cl_bool>>::to_cl_number, (b,), back),
    ensures
        back == c,
{
}

/// Converting a `ClBool` into a `cl_bool` and back gives the same condition.
pub proof fn lemma_cl_bool_round_trip(b: ClBool, c: cl_bool, back: ClBool)
    requires
        call_ensures(<ClBool as ToClNumber<cl_bool>>::to_cl_number, (b,), c),
        call_ensures(<ClBool as FromClNumber<cl_bool>>::from_cl_number, (c,), back),
    ensures
        <ClBool as FromClNumber<cl_bool>>::accepts(c),
        back == b,
{
}

/// Unsigned integer produced by the size of operator.
pub struct SizeT(usize);

/// 16-bit floating-point value, IEEE-754-2008 conformant, held as its bits.
pub struct ClHalf(cl_half);

impl View for ClHalf {
    type V = cl_half;

    closed spec fn view(&self) -> cl_half {
        self.0
    }
}

impl core::ops::Deref for ClHalf {
    type Target = cl_half;

    /// The bits of the value.
    fn deref(&self) -> (h: &cl_half)
        ensures
            *h == self@,
    {
        &self.0
    }
}

impl ToClNumber<cl_half> for ClHalf {
    fn to_cl_number(self) -> (h: cl_half)
        ensures
            h == self@,
    {
        self.0
    }
}

impl FromClNumber<cl_half> for ClHalf {
    open spec fn accepts(value: cl_half) -> bool {
        true
    }

    fn from_cl_number(val: cl_half) -> (h: ClHalf)
        ensures
            h@ == val,
    {
        ClHalf(val)
    }
}

/// Signed two's complement 8-bit integer.
pub struct ClChar(cl_char);

impl View for ClChar {
    type V = cl_char;

    closed spec fn view(&self) -> cl_char {
        self.0
    }
}

impl ToClNumber<cl_char> for ClChar {
    fn to_cl_number(self) -> (v: cl_char)
        ensures
            v == self@,
    {
        self.0
    }
}

impl FromClNumber<cl_char> for ClChar {
    open spec fn accepts(value: cl_char) -> bool {
        true
    }

    fn from_cl_number(val: cl_char) -> (v: ClChar)
        ensures
            v@ == val,
    {
        ClChar(val)
    }
}

impl FromClNumber<cl_char> for i8 {
    open spec fn accepts(value: cl_char) -> bool {
        true
    }

    fn from_cl_number(val: cl_char) -> (v: i8)
        ensures
            v == val,
    {
        val
    }
}

impl NumberTypedT for i8 {
    open spec fn number_type_spec() -> NumberType {
        NumberType::ClChar(NumberTypeKind::Primitive)
    }

    fn number_type() -> (t: NumberType) {
        NumberType::ClChar(NumberTypeKind::Primitive)
    }
}

impl NumberTypedT for ClChar {
    open spec fn number_type_spec() -> NumberType {
        NumberType::ClChar(NumberTypeKind::Primitive)
    }

    fn number_type() -> (t: NumberType) {
        NumberType::ClChar(NumberTypeKind::Primitive)
    }
}

impl Zeroed for i8 {
    fn zeroed() -> (z: i8)
        ensures
            z == 0,
    {
        0
    }
}

impl ClNumber for i8 {}

/// Unsigned 8-bit integer.
pub struct ClUchar(cl_uchar);

impl View for ClUchar {
    type V = cl_uchar;

    closed spec fn view(&self) -> cl_uchar {
        self.0
    }
}

impl ToClNumber<cl_uchar> for ClUchar {
    fn to_cl_number(self) -> (v: cl_uchar)
        ensures
            v == self@,
    {
        self.0
    }
}

impl FromClNumber<cl_uchar> for ClUchar {
    open spec fn accepts(value: cl_uchar) -> bool {
        true
    }

    fn from_cl_number(val: cl_uchar) -> (v: ClUchar)
        ensures
            v@ == val,
    {
        ClUchar(val)
    }
}

impl FromClNumber<cl_uchar> for u8 {
    open spec fn accepts(value: cl_uchar) -> bool {
        true
    }

    fn from_cl_number(val: cl_uchar) -> (v: u8)
        ensures
            v == val,
    {
        val
    }
}

impl NumberTypedT for u8 {
    open spec fn number_type_spec() -> NumberType {
        NumberType::ClUchar(NumberTypeKind::Primitive)
    }

    fn number_type() -> (t: NumberType) {
        NumberType::ClUchar(NumberTypeKind::Primitive)
    }
}

impl NumberTypedT for ClUchar {
    open spec fn number_type_spec() -> NumberType {
        NumberType::ClUchar(NumberTypeKind::Primitive)
    }

    fn number_type() -> (t: NumberType) {
        NumberType::ClUchar(NumberTypeKind::Primitive)
    }
}

impl Zeroed for u8 {
    fn zeroed() -> (z: u8)
        ensures
            z == 0,
    {
        0
    }
}

impl ClNumber for u8 {}

/// Signed two's complement 16-bit integer.
pub struct ClShort(cl_short);

impl View for ClShort {
    type V = cl_short;

    closed spec fn view(&self) -> cl_short {
        self.0
    }
}

impl ToClNumber<cl_short> for ClShort {
    fn to_cl_number(self) -> (v: cl_short)
        ensures
            v == self@,
    {
        self.0
    }
}

impl FromClNumber<cl_short> for ClShort {
    open spec fn accepts(value: cl_short) -> bool {
        true
    }

    fn from_cl_number(val: cl_short) -> (v: ClShort)
        ensures
            v@ == val,
    {
        ClShort(val)
    }
}

impl FromClNumber<cl_short> for i16 {
    open spec fn accepts(value: cl_short) -> bool {
        true
    }

    fn from_cl_number(val: cl_short) -> (v: i16)
        ensures
            v == val,
    {
        val
    }
}

impl NumberTypedT for i16 {
    open spec fn number_type_spec() -> NumberType {
        NumberType::ClShort(NumberTypeKind::Primitive)
    }

    fn number_type() -> (t: NumberType) {
        NumberType::ClShort(NumberTypeKind::Primitive)
    }
}

impl NumberTypedT for ClShort {
    open spec fn number_type_spec() -> NumberType {
        NumberType::ClShort(NumberTypeKind::Primitive)
    }

    fn number_type() -> (t: NumberType) {
        NumberType::ClShort(NumberTypeKind::Primitive)
    }
}

impl Zeroed for i16 {
    fn zeroed() -> (z: i16)
        ensures
            z == 0,
    {
        0
    }
}

impl ClNumber for i16 {}

/// Unsigned 16-bit integer.
pub struct ClUshort(cl_ushort);

impl View for ClUshort {
    type V = cl_ushort;

    closed spec fn view(&self) -> cl_ushort {
        self.0
    }
}

impl ToClNumber<cl_ushort> for ClUshort {
    fn to_cl_number(self) -> (v: cl_ushort)
        ensures
            v == self@,
    {
        self.0
    }
}

impl FromClNumber<cl_ushort> for ClUshort {
    open spec fn accepts(value: cl_ushort) -> bool {
        true
    }

    fn from_cl_number(val: cl_ushort) -> (v: ClUshort)
        ensures
            v@ == val,
    {
        ClUshort(val)
    }
}

impl FromClNumber<cl_ushort> for u16 {
    open spec fn accepts(value: cl_ushort) -> bool {
        true
    }

    fn from_cl_number(val: cl_ushort) -> (v: u16)
        ensures
            v == val,
    {
        val
    }
}

impl NumberTypedT for u16 {
    open spec fn number_type_spec() -> NumberType {
        NumberType::ClUshort(NumberTypeKind::Primitive)
    }

    fn number_type() -> (t: NumberType) {
        NumberType::ClUshort(NumberTypeKind::Primitive)
    }
}

impl NumberTypedT for ClUshort {
    open spec fn number_type_spec() -> NumberType {
        NumberType::ClUshort(NumberTypeKind::Primitive)
    }

    fn number_type() -> (t: NumberType) {
        NumberType::ClUshort(NumberTypeKind::Primitive)
    }
}

impl Zeroed for u16 {
    fn zeroed() -> (z: u16)
        ensures
            z == 0,
    {
        0
    }
}

impl ClNumber for u16 {}

/// Signed two's complement 32-bit integer.
pub struct ClInt(cl_int);

impl View for ClInt {
    type V = cl_int;

    closed spec fn view(&self) -> cl_int {
        self.0
    }
}

impl ToClNumber<cl_int> for ClInt {
    fn to_cl_number(self) -> (v: cl_int)
        ensures
            v == self@,
    {
        self.0
    }
}

impl FromClNumber<cl_int> for ClInt {
    open spec fn accepts(value: cl_int) -> bool {
        true
    }

    fn from_cl_number(val: cl_int) -> (v: ClInt)
        ensures
            v@ == val,
    {
        ClInt(val)
    }
}

impl FromClNumber<cl_int> for i32 {
    open spec fn accepts(value: cl_int) -> bool {
        true
    }

    fn from_cl_number(val: cl_int) -> (v: i32)
        ensures
            v == val,
    {
        val
    }
}

impl NumberTypedT for i32 {
    open spec fn number_type_spec() -> NumberType {
        NumberType::ClInt(NumberTypeKind::Primitive)
    }

    fn number_type() -> (t: NumberType) {
        NumberType::ClInt(NumberTypeKind::Primitive)
    }
}

impl NumberTypedT for ClInt {
    open spec fn number_type_spec() -> NumberType {
        NumberType::ClInt(NumberTypeKind::Primitive)
    }

    fn number_type() -> (t: NumberType) {
        NumberType::ClInt(NumberTypeKind::Primitive)
    }
}

impl Zeroed for i32 {
    fn zeroed() -> (z: i32)
        ensures
            z == 0,
    {
        0
    }
}

impl ClNumber for i32 {}

/// Unsigned 32-bit integer.
pub struct ClUint(cl_uint);

impl View for ClUint {
    type V = cl_uint;

    closed spec fn view(&self) -> cl_uint {
        self.0
    }
}

impl ToClNumber<cl_uint> for ClUint {
    fn to_cl_number(self) -> (v: cl_uint)
        ensures
            v == self@,
    {
        self.0
    }
}

impl FromClNumber<cl_uint> for ClUint {
    open spec fn accepts(value: cl_uint) -> bool {
        true
    }

    fn from_cl_number(val: cl_uint) -> (v: ClUint)
        ensures
            v@ == val,
    {
        ClUint(val)
    }
}

impl FromClNumber<cl_uint> for u32 {
    open spec fn accepts(value: cl_uint) -> bool {
        true
    }

    fn from_cl_number(val: cl_uint) -> (v: u32)
        ensures
            v == val,
    {
        val
    }
}

impl NumberTypedT for u32 {
    open spec fn number_type_spec() -> NumberType {
        NumberType::ClUint(NumberTypeKind::Primitive)
    }

    fn number_type() -> (t: NumberType) {
        NumberType::ClUint(NumberTypeKind::Primitive)
    }
}

impl NumberTypedT for ClUint {
    open spec fn number_type_spec() -> NumberType {
        NumberType::ClUint(NumberTypeKind::Primitive)
    }

    fn number_type() -> (t: NumberType) {
        NumberType::ClUint(NumberTypeKind::Primitive)
    }
}

impl Zeroed for u32 {
    fn zeroed() -> (z: u32)
        ensures
            z == 0,
    {
        0
    }
}

impl ClNumber for u32 {}

/// Signed two's complement 64-bit integer.
pub struct ClLong(cl_long);

impl View for ClLong {
    type V = cl_long;

    closed spec fn view(&self) -> cl_long {
        self.0
    }
}

impl ToClNumber<cl_long> for ClLong {
    fn to_cl_number(self) -> (v: cl_long)
        ensures
            v == self@,
    {
        self.0
    }
}

impl FromClNumber<cl_long> for ClLong {
    open spec fn accepts(value: cl_long) -> bool {
        true
    }

    fn from_cl_number(val: cl_long) -> (v: ClLong)
        ensures
            v@ == val,
    {
        ClLong(val)
    }
}

impl FromClNumber<cl_long> for i64 {
    open spec fn accepts(value: cl_long) -> bool {
        true
    }

    fn from_cl_number(val: cl_long) -> (v: i64)
        ensures
            v == val,
    {
        val
    }
}

impl NumberTypedT for i64 {
    open spec fn number_type_spec() -> NumberType {
        NumberType::ClLong(NumberTypeKind::Primitive)
    }

    fn number_type() -> (t: NumberType) {
        NumberType::ClLong(NumberTypeKind::Primitive)
    }
}

impl NumberTypedT for ClLong {
    open spec fn number_type_spec() -> NumberType {
        NumberType::ClLong(NumberTypeKind::Primitive)
    }

    fn number_type() -> (t: NumberType) {
        NumberType::ClLong(NumberTypeKind::Primitive)
    }
}

impl Zeroed for i64 {
    fn zeroed() -> (z: i64)
        ensures
            z == 0,
    {
        0
    }
}

impl ClNumber for i64 {}

/// Unsigned 64-bit integer.
pub struct ClUlong(cl_ulong);

impl View for ClUlong {
    type V = cl_ulong;

    closed spec fn view(&self) -> cl_ulong {
        self.0
    }
}

impl ToClNumber<cl_ulong> for ClUlong {
    fn to_cl_number(self) -> (v: cl_ulong)
        ensures
            v == self@,
    {
        self.0
    }
}

impl FromClNumber<cl_ulong> for ClUlong {
    open spec fn accepts(value: cl_ulong) -> bool {
        true
    }

    fn from_cl_number(val: cl_ulong) -> (v: ClUlong)
        ensures
            v@ == val,
    {
        ClUlong(val)
    }
}

impl FromClNumber<cl_ulong> for u64 {
    open spec fn accepts(value: cl_ulong) -> bool {
        true
    }

    fn from_cl_number(val: cl_ulong) -> (v: u64)
        ensures
            v == val,
    {
        val
    }
}

impl NumberTypedT for u64 {
    open spec fn number_type_spec() -> NumberType {
        NumberType::ClUlong(NumberTypeKind::Primitive)
    }

    fn number_type() -> (t: NumberType) {
        NumberType::ClUlong(NumberTypeKind::Primitive)
    }
}

impl NumberTypedT for ClUlong {
    open spec fn number_type_spec() -> NumberType {
        NumberType::ClUlong(NumberTypeKind::Primitive)
    }

    fn number_type() -> (t: NumberType) {
        NumberType::ClUlong(NumberTypeKind::Primitive)
    }
}

impl Zeroed for u64 {
    fn zeroed() -> (z: u64)
        ensures
            z == 0,
    {
        0
    }
}

impl ClNumber for u64 {}

/// The size that the number type of a primitive number gives is the size of the number.
pub proof fn lemma_primitive_number_type_sizes()
    ensures
        <i8 as NumberTypedT>::number_type_spec().size_spec() == vstd::layout::size_of::<i8>(),
        <u8 as NumberTypedT>::number_type_spec().size_spec() == vstd::layout::size_of::<u8>(),
        <i16 as NumberTypedT>::number_type_spec().size_spec() == vstd::layout::size_of::<i16>(),
        <u16 as NumberTypedT>::number_type_spec().size_spec() == vstd::layout::size_of::<u16>(),
        <i32 as NumberTypedT>::number_type_spec().size_spec() == vstd::layout::size_of::<i32>(),
        <u32 as NumberTypedT>::number_type_spec().size_spec() == vstd::layout::size_of::<u32>(),
        <i64 as NumberTypedT>::number_type_spec().size_spec() == vstd::layout::size_of::<i64>(),
        <u64 as NumberTypedT>::number_type_spec().size_spec() == vstd::layout::size_of::<u64>(),
{
    broadcast use vstd::layout::layout_of_primitives;

}

/// Every number type names the OpenCL type of the same signedness and width: `i8` and
/// `ClChar` are `cl_char`, `u8` and `ClUchar` are `cl_uchar`, and so on up to `u64` and
/// `ClUlong`, which are `cl_ulong`; each is a single number (`Primitive`).
pub proof fn lemma_number_types_of_numbers()
    ensures
        forall|t: NumberType| #[trigger] call_ensures(<i8 as NumberTypedT>::number_type, (), t) ==> t == NumberType::ClChar(NumberTypeKind::Primitive),
        forall|t: NumberType| #[trigger] call_ensures(<ClChar as NumberTypedT>::number_type, (), t) ==> t == NumberType::ClChar(NumberTypeKind::Primitive),
        forall|t: NumberType| #[trigger] call_ensures(<u8 as NumberTypedT>::number_type, (), t) ==> t == NumberType::ClUchar(NumberTypeKind::Primitive),
        forall|t: NumberType| #[trigger] call_ensures(<ClUchar as NumberTypedT>::number_type, (), t) ==> t == NumberType::ClUchar(NumberTypeKind::Primitive),
        forall|t: NumberType| #[trigger] call_ensures(<i16 as NumberTypedT>::number_type, (), t) ==> t == NumberType::ClShort(NumberTypeKind::Primitive),
        forall|t: NumberType| #[trigger] call_ensures(<ClShort as NumberTypedT>::number_type, (), t) ==> t == NumberType::ClShort(NumberTypeKind::Primitive),
        forall|t: NumberType| #[trigger] call_ensures(<u16 as NumberTypedT>::number_type, (), t) ==> t == NumberType::ClUshort(NumberTypeKind::Primitive),
        forall|t: NumberType| #[trigger] call_ensures(<ClUshort as NumberTypedT>::number_type, (), t) ==> t == NumberType::ClUshort(NumberTypeKind::Primitive),
        forall|t: NumberType| #[trigger] call_ensures(<i32 as NumberTypedT>::number_type, (), t) ==> t == NumberType::ClInt(NumberTypeKind::Primitive),
        forall|t: NumberType| #[trigger] call_ensures(<ClInt as NumberTypedT>::number_type, (), t) ==> t == NumberType::ClInt(NumberTypeKind::Primitive),
        forall|t: NumberType| #[trigger] call_ensures(<u32 as NumberTypedT>::number_type, (), t) ==> t == NumberType::ClUint(NumberTypeKind::Primitive),
        forall|t: NumberType| #[trigger] call_ensures(<ClUint as NumberTypedT>::number_type, (), t) ==> t == NumberType::ClUint(NumberTypeKind::Primitive),
        forall|t: NumberType| #[trigger] call_ensures(<i64 as NumberTypedT>::number_type, (), t) ==> t == NumberType::ClLong(NumberTypeKind::Primitive),
        forall|t: NumberType| #[trigger] call_ensures(<ClLong as NumberTypedT>::number_type, (), t) ==> t == NumberType::ClLong(NumberTypeKind::Primitive),
        forall|t: NumberType| #[trigger] call_ensures(<u64 as NumberTypedT>::number_type, (), t) ==> t == NumberType::ClUlong(NumberTypeKind::Primitive),
        forall|t: NumberType| #[trigger] call_ensures(<ClUlong as NumberTypedT>::number_type, (), t) ==> t == NumberType::ClUlong(NumberTypeKind::Primitive),
{
}

} // verus!

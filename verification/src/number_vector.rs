use vstd::prelude::*;

use crate::number::{ClNumber, FromClNumber, ToClNumber, Zeroed};
use crate::number_type::{NumberType, NumberTypeKind, NumberTypedT};

verus! {

impl NumberTypedT for [i8; 2] {
    open spec fn number_type_spec() -> NumberType {
        NumberType::ClChar(NumberTypeKind::Two)
    }

    fn number_type() -> (t: NumberType) {
        NumberType::ClChar(NumberTypeKind::Two)
    }
}

impl Zeroed for [i8; 2] {
    fn zeroed() -> (z: [i8; 2])
        ensures
            forall|i: int| 0 <= i < 2 ==> z@[i] == 0,
    {
        [0i8, 0i8]
    }
}

impl ClNumber for [i8; 2] {}

impl NumberTypedT for [i8; 4] {
    open spec fn number_type_spec() -> NumberType {
        NumberType::ClChar(NumberTypeKind::Four)
    }

    fn number_type() -> (t: NumberType) {
        NumberType::ClChar(NumberTypeKind::Four)
    }
}

impl Zeroed for [i8; 4] {
    fn zeroed() -> (z: [i8; 4])
        ensures
            forall|i: int| 0 <= i < 4 ==> z@[i] == 0,
    {
        [0i8, 0i8, 0i8, 0i8]
    }
}

impl ClNumber for [i8; 4] {}

impl NumberTypedT for [i8; 8] {
    open spec fn number_type_spec() -> NumberType {
        NumberType::ClChar(NumberTypeKind::Eight)
    }

    fn number_type() -> (t: NumberType) {
        NumberType::ClChar(NumberTypeKind::Eight)
    }
}

impl Zeroed for [i8; 8] {
    fn zeroed() -> (z: [i8; 8])
        ensures
            forall|i: int| 0 <= i < 8 ==> z@[i] == 0,
    {
        [0i8, 0i8, 0i8, 0i8, 0i8, 0i8, 0i8, 0i8]
    }
}

impl ClNumber for [i8; 8] {}

impl NumberTypedT for [i8; 16] {
    open spec fn number_type_spec() -> NumberType {
        NumberType::ClChar(NumberTypeKind::Sixteen)
    }

    fn number_type() -> (t: NumberType) {
        NumberType::ClChar(NumberTypeKind::Sixteen)
    }
}

impl Zeroed for [i8; 16] {
    fn zeroed() -> (z: [i8; 16])
        ensures
            forall|i: int| 0 <= i < 16 ==> z@[i] == 0,
    {
        [0i8, 0i8, 0i8, 0i8, 0i8, 0i8, 0i8, 0i8, 0i8, 0i8, 0i8, 0i8, 0i8, 0i8, 0i8, 0i8]
    }
}

impl ClNumber for [i8; 16] {}

/// Vector containing 2 `i8`.
pub struct ClChar2([i8; 2]);

impl View for ClChar2 {
    type V = Seq<i8>;

    closed spec fn view(&self) -> Seq<i8> {
        self.0@
    }
}

impl core::ops::Deref for ClChar2 {
    type Target = [i8; 2];

    fn deref(&self) -> (v: &[i8; 2])
        ensures
            v@ == self@,
    {
        &self.0
    }
}

impl ToClNumber<[i8; 2]> for ClChar2 {
    fn to_cl_number(self) -> (v: [i8; 2])
        ensures
            v@ == self@,
    {
        self.0
    }
}

impl FromClNumber<[i8; 2]> for ClChar2 {
    open spec fn accepts(value: [i8; 2]) -> bool {
        true
    }

    fn from_cl_number(val: [i8; 2]) -> (v: ClChar2)
        ensures
            v@ == val@,
    {
        ClChar2(val)
    }
}

impl NumberTypedT for ClChar2 {
    open spec fn number_type_spec() -> NumberType {
        NumberType::ClChar(NumberTypeKind::Two)
    }

    fn number_type() -> (t: NumberType) {
        NumberType::ClChar(NumberTypeKind::Two)
    }
}

/// Vector containing 3 `i8`.
pub struct ClChar3([i8; 3]);

impl View for ClChar3 {
    type V = Seq<i8>;

    closed spec fn view(&self) -> Seq<i8> {
        self.0@
    }
}

impl core::ops::Deref for ClChar3 {
    type Target = [i8; 3];

    fn deref(&self) -> (v: &[i8; 3])
        ensures
            v@ == self@,
    {
        &self.0
    }
}

impl ToClNumber<[i8; 3]> for ClChar3 {
    fn to_cl_number(self) -> (v: [i8; 3])
        ensures
            v@ == self@,
    {
        self.0
    }
}

impl FromClNumber<[i8; 3]> for ClChar3 {
    open spec fn accepts(value: [i8; 3]) -> bool {
        true
    }

    fn from_cl_number(val: [i8; 3]) -> (v: ClChar3)
        ensures
            v@ == val@,
    {
        ClChar3(val)
    }
}

/// Vector containing 4 `i8`.
pub struct ClChar4([i8; 4]);

impl View for ClChar4 {
    type V = Seq<i8>;

    closed spec fn view(&self) -> Seq<i8> {
        self.0@
    }
}

impl core::ops::Deref for ClChar4 {
    type Target = [i8; 4];

    fn deref(&self) -> (v: &[i8; 4])
        ensures
            v@ == self@,
    {
        &self.0
    }
}

impl ToClNumber<[i8; 4]> for ClChar4 {
    fn to_cl_number(self) -> (v: [i8; 4])
        ensures
            v@ == self@,
    {
        self.0
    }
}

impl FromClNumber<[i8; 4]> for ClChar4 {
    open spec fn accepts(value: [i8; 4]) -> bool {
        true
    }

    fn from_cl_number(val: [i8; 4]) -> (v: ClChar4)
        ensures
            v@ == val@,
    {
        ClChar4(val)
    }
}

impl NumberTypedT for ClChar4 {
    open spec fn number_type_spec() -> NumberType {
        NumberType::ClChar(NumberTypeKind::Four)
    }

    fn number_type() -> (t: NumberType) {
        NumberType::ClChar(NumberTypeKind::Four)
    }
}

/// Vector containing 8 `i8`.
pub struct ClChar8([i8; 8]);

impl View for ClChar8 {
    type V = Seq<i8>;

    closed spec fn view(&self) -> Seq<i8> {
        self.0@
    }
}

impl core::ops::Deref for ClChar8 {
    type Target = [i8; 8];

    fn deref(&self) -> (v: &[i8; 8])
        ensures
            v@ == self@,
    {
        &self.0
    }
}

impl ToClNumber<[i8; 8]> for ClChar8 {
    fn to_cl_number(self) -> (v: [i8; 8])
        ensures
            v@ == self@,
    {
        self.0
    }
}

impl FromClNumber<[i8; 8]> for ClChar8 {
    open spec fn accepts(value: [i8; 8]) -> bool {
        true
    }

    fn from_cl_number(val: [i8; 8]) -> (v: ClChar8)
        ensures
            v@ == val@,
    {
        ClChar8(val)
    }
}

impl NumberTypedT for ClChar8 {
    open spec fn number_type_spec() -> NumberType {
        NumberType::ClChar(NumberTypeKind::Eight)
    }

    fn number_type() -> (t: NumberType) {
        NumberType::ClChar(NumberTypeKind::Eight)
    }
}

/// Vector containing 16 `i8`.
pub struct ClChar16([i8; 16]);

impl View for ClChar16 {
    type V = Seq<i8>;

    closed spec fn view(&self) -> Seq<i8> {
        self.0@
    }
}

impl core::ops::Deref for ClChar16 {
    type Target = [i8; 16];

    fn deref(&self) -> (v: &[i8; 16])
        ensures
            v@ == self@,
    {
        &self.0
    }
}

impl ToClNumber<[i8; 16]> for ClChar16 {
    fn to_cl_number(self) -> (v: [i8; 16])
        ensures
            v@ == self@,
    {
        self.0
    }
}

impl FromClNumber<[i8; 16]> for ClChar16 {
    open spec fn accepts(value: [i8; 16]) -> bool {
        true
    }

    fn from_cl_number(val: [i8; 16]) -> (v: ClChar16)
        ensures
            v@ == val@,
    {
        ClChar16(val)
    }
}

impl NumberTypedT for ClChar16 {
    open spec fn number_type_spec() -> NumberType {
        NumberType::ClChar(NumberTypeKind::Sixteen)
    }

    fn number_type() -> (t: NumberType) {
        NumberType::ClChar(NumberTypeKind::Sixteen)
    }
}

impl NumberTypedT for [u8; 2] {
    open spec fn number_type_spec() -> NumberType {
        NumberType::ClUchar(NumberTypeKind::Two)
    }

    fn number_type() -> (t: NumberType) {
        NumberType::ClUchar(NumberTypeKind::Two)
    }
}

impl Zeroed for [u8; 2] {
    fn zeroed() -> (z: [u8; 2])
        ensures
            forall|i: int| 0 <= i < 2 ==> z@[i] == 0,
    {
        [0u8, 0u8]
    }
}

impl ClNumber for [u8; 2] {}

impl NumberTypedT for [u8; 4] {
    open spec fn number_type_spec() -> NumberType {
        NumberType::ClUchar(NumberTypeKind::Four)
    }

    fn number_type() -> (t: NumberType) {
        NumberType::ClUchar(NumberTypeKind::Four)
    }
}

impl Zeroed for [u8; 4] {
    fn zeroed() -> (z: [u8; 4])
        ensures
            forall|i: int| 0 <= i < 4 ==> z@[i] == 0,
    {
        [0u8, 0u8, 0u8, 0u8]
    }
}

impl ClNumber for [u8; 4] {}

impl NumberTypedT for [u8; 8] {
    open spec fn number_type_spec() -> NumberType {
        NumberType::ClUchar(NumberTypeKind::Eight)
    }

    fn number_type() -> (t: NumberType) {
        NumberType::ClUchar(NumberTypeKind::Eight)
    }
}

impl Zeroed for [u8; 8] {
    fn zeroed() -> (z: [u8; 8])
        ensures
            forall|i: int| 0 <= i < 8 ==> z@[i] == 0,
    {
        [0u8, 0u8, 0u8, 0u8, 0u8, 0u8, 0u8, 0u8]
    }
}

impl ClNumber for [u8; 8] {}

impl NumberTypedT for [u8; 16] {
    open spec fn number_type_spec() -> NumberType {
        NumberType::ClUchar(NumberTypeKind::Sixteen)
    }

    fn number_type() -> (t: NumberType) {
        NumberType::ClUchar(NumberTypeKind::Sixteen)
    }
}

impl Zeroed for [u8; 16] {
    fn zeroed() -> (z: [u8; 16])
        ensures
            forall|i: int| 0 <= i < 16 ==> z@[i] == 0,
    {
        [0u8, 0u8, 0u8, 0u8, 0u8, 0u8, 0u8, 0u8, 0u8, 0u8, 0u8, 0u8, 0u8, 0u8, 0u8, 0u8]
    }
}

impl ClNumber for [u8; 16] {}

/// Vector containing 2 `u8`.
pub struct ClUchar2([u8; 2]);

impl View for ClUchar2 {
    type V = Seq<u8>;

    closed spec fn view(&self) -> Seq<u8> {
        self.0@
    }
}

impl core::ops::Deref for ClUchar2 {
    type Target = [u8; 2];

    fn deref(&self) -> (v: &[u8; 2])
        ensures
            v@ == self@,
    {
        &self.0
    }
}

impl ToClNumber<[u8; 2]> for ClUchar2 {
    fn to_cl_number(self) -> (v: [u8; 2])
        ensures
            v@ == self@,
    {
        self.0
    }
}

impl FromClNumber<[u8; 2]> for ClUchar2 {
    open spec fn accepts(value: [u8; 2]) -> bool {
        true
    }

    fn from_cl_number(val: [u8; 2]) -> (v: ClUchar2)
        ensures
            v@ == val@,
    {
        ClUchar2(val)
    }
}

impl NumberTypedT for ClUchar2 {
    open spec fn number_type_spec() -> NumberType {
        NumberType::ClUchar(NumberTypeKind::Two)
    }

    fn number_type() -> (t: NumberType) {
        NumberType::ClUchar(NumberTypeKind::Two)
    }
}

/// Vector containing 3 `u8`.
pub struct ClUchar3([u8; 3]);

impl View for ClUchar3 {
    type V = Seq<u8>;

    closed spec fn view(&self) -> Seq<u8> {
        self.0@
    }
}

impl core::ops::Deref for ClUchar3 {
    type Target = [u8; 3];

    fn deref(&self) -> (v: &[u8; 3])
        ensures
            v@ == self@,
    {
        &self.0
    }
}

impl ToClNumber<[u8; 3]> for ClUchar3 {
    fn to_cl_number(self) -> (v: [u8; 3])
        ensures
            v@ == self@,
    {
        self.0
    }
}

impl FromClNumber<[u8; 3]> for ClUchar3 {
    open spec fn accepts(value: [u8; 3]) -> bool {
        true
    }

    fn from_cl_number(val: [u8; 3]) -> (v: ClUchar3)
        ensures
            v@ == val@,
    {
        ClUchar3(val)
    }
}

/// Vector containing 4 `u8`.
pub struct ClUchar4([u8; 4]);

impl View for ClUchar4 {
    type V = Seq<u8>;

    closed spec fn view(&self) -> Seq<u8> {
        self.0@
    }
}

impl core::ops::Deref for ClUchar4 {
    type Target = [u8; 4];

    fn deref(&self) -> (v: &[u8; 4])
        ensures
            v@ == self@,
    {
        &self.0
    }
}

impl ToClNumber<[u8; 4]> for ClUchar4 {
    fn to_cl_number(self) -> (v: [u8; 4])
        ensures
            v@ == self@,
    {
        self.0
    }
}

impl FromClNumber<[u8; 4]> for ClUchar4 {
    open spec fn accepts(value: [u8; 4]) -> bool {
        true
    }

    fn from_cl_number(val: [u8; 4]) -> (v: ClUchar4)
        ensures
            v@ == val@,
    {
        ClUchar4(val)
    }
}

impl NumberTypedT for ClUchar4 {
    open spec fn number_type_spec() -> NumberType {
        NumberType::ClUchar(NumberTypeKind::Four)
    }

    fn number_type() -> (t: NumberType) {
        NumberType::ClUchar(NumberTypeKind::Four)
    }
}

/// Vector containing 8 `u8`.
pub struct ClUchar8([u8; 8]);

impl View for ClUchar8 {
    type V = Seq<u8>;

    closed spec fn view(&self) -> Seq<u8> {
        self.0@
    }
}

impl core::ops::Deref for ClUchar8 {
    type Target = [u8; 8];

    fn deref(&self) -> (v: &[u8; 8])
        ensures
            v@ == self@,
    {
        &self.0
    }
}

impl ToClNumber<[u8; 8]> for ClUchar8 {
    fn to_cl_number(self) -> (v: [u8; 8])
        ensures
            v@ == self@,
    {
        self.0
    }
}

impl FromClNumber<[u8; 8]> for ClUchar8 {
    open spec fn accepts(value: [u8; 8]) -> bool {
        true
    }

    fn from_cl_number(val: [u8; 8]) -> (v: ClUchar8)
        ensures
            v@ == val@,
    {
        ClUchar8(val)
    }
}

impl NumberTypedT for ClUchar8 {
    open spec fn number_type_spec() -> NumberType {
        NumberType::ClUchar(NumberTypeKind::Eight)
    }

    fn number_type() -> (t: NumberType) {
        NumberType::ClUchar(NumberTypeKind::Eight)
    }
}

/// Vector containing 16 `u8`.
pub struct ClUchar16([u8; 16]);

impl View for ClUchar16 {
    type V = Seq<u8>;

    closed spec fn view(&self) -> Seq<u8> {
        self.0@
    }
}

impl core::ops::Deref for ClUchar16 {
    type Target = [u8; 16];

    fn deref(&self) -> (v: &[u8; 16])
        ensures
            v@ == self@,
    {
        &self.0
    }
}

impl ToClNumber<[u8; 16]> for ClUchar16 {
    fn to_cl_number(self) -> (v: [u8; 16])
        ensures
            v@ == self@,
    {
        self.0
    }
}

impl FromClNumber<[u8; 16]> for ClUchar16 {
    open spec fn accepts(value: [u8; 16]) -> bool {
        true
    }

    fn from_cl_number(val: [u8; 16]) -> (v: ClUchar16)
        ensures
            v@ == val@,
    {
        ClUchar16(val)
    }
}

impl NumberTypedT for ClUchar16 {
    open spec fn number_type_spec() -> NumberType {
        NumberType::ClUchar(NumberTypeKind::Sixteen)
    }

    fn number_type() -> (t: NumberType) {
        NumberType::ClUchar(NumberTypeKind::Sixteen)
    }
}

impl NumberTypedT for [i16; 2] {
    open spec fn number_type_spec() -> NumberType {
        NumberType::ClShort(NumberTypeKind::Two)
    }

    fn number_type() -> (t: NumberType) {
        NumberType::ClShort(NumberTypeKind::Two)
    }
}

impl Zeroed for [i16; 2] {
    fn zeroed() -> (z: [i16; 2])
        ensures
            forall|i: int| 0 <= i < 2 ==> z@[i] == 0,
    {
        [0i16, 0i16]
    }
}

impl ClNumber for [i16; 2] {}

impl NumberTypedT for [i16; 4] {
    open spec fn number_type_spec() -> NumberType {
        NumberType::ClShort(NumberTypeKind::Four)
    }

    fn number_type() -> (t: NumberType) {
        NumberType::ClShort(NumberTypeKind::Four)
    }
}

impl Zeroed for [i16; 4] {
    fn zeroed() -> (z: [i16; 4])
        ensures
            forall|i: int| 0 <= i < 4 ==> z@[i] == 0,
    {
        [0i16, 0i16, 0i16, 0i16]
    }
}

impl ClNumber for [i16; 4] {}

impl NumberTypedT for [i16; 8] {
    open spec fn number_type_spec() -> NumberType {
        NumberType::ClShort(NumberTypeKind::Eight)
    }

    fn number_type() -> (t: NumberType) {
        NumberType::ClShort(NumberTypeKind::Eight)
    }
}

impl Zeroed for [i16; 8] {
    fn zeroed() -> (z: [i16; 8])
        ensures
            forall|i: int| 0 <= i < 8 ==> z@[i] == 0,
    {
        [0i16, 0i16, 0i16, 0i16, 0i16, 0i16, 0i16, 0i16]
    }
}

impl ClNumber for [i16; 8] {}

impl NumberTypedT for [i16; 16] {
    open spec fn number_type_spec() -> NumberType {
        NumberType::ClShort(NumberTypeKind::Sixteen)
    }

    fn number_type() -> (t: NumberType) {
        NumberType::ClShort(NumberTypeKind::Sixteen)
    }
}

impl Zeroed for [i16; 16] {
    fn zeroed() -> (z: [i16; 16])
        ensures
            forall|i: int| 0 <= i < 16 ==> z@[i] == 0,
    {
        [0i16, 0i16, 0i16, 0i16, 0i16, 0i16, 0i16, 0i16, 0i16, 0i16, 0i16, 0i16, 0i16, 0i16, 0i16, 0i16]
    }
}

impl ClNumber for [i16; 16] {}

/// Vector containing 2 `i16`.
pub struct ClShort2([i16; 2]);

impl View for ClShort2 {
    type V = Seq<i16>;

    closed spec fn view(&self) -> Seq<i16> {
        self.0@
    }
}

impl core::ops::Deref for ClShort2 {
    type Target = [i16; 2];

    fn deref(&self) -> (v: &[i16; 2])
        ensures
            v@ == self@,
    {
        &self.0
    }
}

impl ToClNumber<[i16; 2]> for ClShort2 {
    fn to_cl_number(self) -> (v: [i16; 2])
        ensures
            v@ == self@,
    {
        self.0
    }
}

impl FromClNumber<[i16; 2]> for ClShort2 {
    open spec fn accepts(value: [i16; 2]) -> bool {
        true
    }

    fn from_cl_number(val: [i16; 2]) -> (v: ClShort2)
        ensures
            v@ == val@,
    {
        ClShort2(val)
    }
}

impl NumberTypedT for ClShort2 {
    open spec fn number_type_spec() -> NumberType {
        NumberType::ClShort(NumberTypeKind::Two)
    }

    fn number_type() -> (t: NumberType) {
        NumberType::ClShort(NumberTypeKind::Two)
    }
}

/// Vector containing 3 `i16`.
pub struct ClShort3([i16; 3]);

impl View for ClShort3 {
    type V = Seq<i16>;

    closed spec fn view(&self) -> Seq<i16> {
        self.0@
    }
}

impl core::ops::Deref for ClShort3 {
    type Target = [i16; 3];

    fn deref(&self) -> (v: &[i16; 3])
        ensures
            v@ == self@,
    {
        &self.0
    }
}

impl ToClNumber<[i16; 3]> for ClShort3 {
    fn to_cl_number(self) -> (v: [i16; 3])
        ensures
            v@ == self@,
    {
        self.0
    }
}

impl FromClNumber<[i16; 3]> for ClShort3 {
    open spec fn accepts(value: [i16; 3]) -> bool {
        true
    }

    fn from_cl_number(val: [i16; 3]) -> (v: ClShort3)
        ensures
            v@ == val@,
    {
        ClShort3(val)
    }
}

/// Vector containing 4 `i16`.
pub struct ClShort4([i16; 4]);

impl View for ClShort4 {
    type V = Seq<i16>;

    closed spec fn view(&self) -> Seq<i16> {
        self.0@
    }
}

impl core::ops::Deref for ClShort4 {
    type Target = [i16; 4];

    fn deref(&self) -> (v: &[i16; 4])
        ensures
            v@ == self@,
    {
        &self.0
    }
}

impl ToClNumber<[i16; 4]> for ClShort4 {
    fn to_cl_number(self) -> (v: [i16; 4])
        ensures
            v@ == self@,
    {
        self.0
    }
}

impl FromClNumber<[i16; 4]> for ClShort4 {
    open spec fn accepts(value: [i16; 4]) -> bool {
        true
    }

    fn from_cl_number(val: [i16; 4]) -> (v: ClShort4)
        ensures
            v@ == val@,
    {
        ClShort4(val)
    }
}

impl NumberTypedT for ClShort4 {
    open spec fn number_type_spec() -> NumberType {
        NumberType::ClShort(NumberTypeKind::Four)
    }

    fn number_type() -> (t: NumberType) {
        NumberType::ClShort(NumberTypeKind::Four)
    }
}

/// Vector containing 8 `i16`.
pub struct ClShort8([i16; 8]);

impl View for ClShort8 {
    type V = Seq<i16>;

    closed spec fn view(&self) -> Seq<i16> {
        self.0@
    }
}

impl core::ops::Deref for ClShort8 {
    type Target = [i16; 8];

    fn deref(&self) -> (v: &[i16; 8])
        ensures
            v@ == self@,
    {
        &self.0
    }
}

impl ToClNumber<[i16; 8]> for ClShort8 {
    fn to_cl_number(self) -> (v: [i16; 8])
        ensures
            v@ == self@,
    {
        self.0
    }
}

impl FromClNumber<[i16; 8]> for ClShort8 {
    open spec fn accepts(value: [i16; 8]) -> bool {
        true
    }

    fn from_cl_number(val: [i16; 8]) -> (v: ClShort8)
        ensures
            v@ == val@,
    {
        ClShort8(val)
    }
}

impl NumberTypedT for ClShort8 {
    open spec fn number_type_spec() -> NumberType {
        NumberType::ClShort(NumberTypeKind::Eight)
    }

    fn number_type() -> (t: NumberType) {
        NumberType::ClShort(NumberTypeKind::Eight)
    }
}

/// Vector containing 16 `i16`.
pub struct ClShort16([i16; 16]);

impl View for ClShort16 {
    type V = Seq<i16>;

    closed spec fn view(&self) -> Seq<i16> {
        self.0@
    }
}

impl core::ops::Deref for ClShort16 {
    type Target = [i16; 16];

    fn deref(&self) -> (v: &[i16; 16])
        ensures
            v@ == self@,
    {
        &self.0
    }
}

impl ToClNumber<[i16; 16]> for ClShort16 {
    fn to_cl_number(self) -> (v: [i16; 16])
        ensures
            v@ == self@,
    {
        self.0
    }
}

impl FromClNumber<[i16; 16]> for ClShort16 {
    open spec fn accepts(value: [i16; 16]) -> bool {
        true
    }

    fn from_cl_number(val: [i16; 16]) -> (v: ClShort16)
        ensures
            v@ == val@,
    {
        ClShort16(val)
    }
}

impl NumberTypedT for ClShort16 {
    open spec fn number_type_spec() -> NumberType {
        NumberType::ClShort(NumberTypeKind::Sixteen)
    }

    fn number_type() -> (t: NumberType) {
        NumberType::ClShort(NumberTypeKind::Sixteen)
    }
}

impl NumberTypedT for [u16; 2] {
    open spec fn number_type_spec() -> NumberType {
        NumberType::ClUshort(NumberTypeKind::Two)
    }

    fn number_type() -> (t: NumberType) {
        NumberType::ClUshort(NumberTypeKind::Two)
    }
}

impl Zeroed for [u16; 2] {
    fn zeroed() -> (z: [u16; 2])
        ensures
            forall|i: int| 0 <= i < 2 ==> z@[i] == 0,
    {
        [0u16, 0u16]
    }
}

impl ClNumber for [u16; 2] {}

impl NumberTypedT for [u16; 4] {
    open spec fn number_type_spec() -> NumberType {
        NumberType::ClUshort(NumberTypeKind::Four)
    }

    fn number_type() -> (t: NumberType) {
        NumberType::ClUshort(NumberTypeKind::Four)
    }
}

impl Zeroed for [u16; 4] {
    fn zeroed() -> (z: [u16; 4])
        ensures
            forall|i: int| 0 <= i < 4 ==> z@[i] == 0,
    {
        [0u16, 0u16, 0u16, 0u16]
    }
}

impl ClNumber for [u16; 4] {}

impl NumberTypedT for [u16; 8] {
    open spec fn number_type_spec() -> NumberType {
        NumberType::ClUshort(NumberTypeKind::Eight)
    }

    fn number_type() -> (t: NumberType) {
        NumberType::ClUshort(NumberTypeKind::Eight)
    }
}

impl Zeroed for [u16; 8] {
    fn zeroed() -> (z: [u16; 8])
        ensures
            forall|i: int| 0 <= i < 8 ==> z@[i] == 0,
    {
        [0u16, 0u16, 0u16, 0u16, 0u16, 0u16, 0u16, 0u16]
    }
}

impl ClNumber for [u16; 8] {}

impl NumberTypedT for [u16; 16] {
    open spec fn number_type_spec() -> NumberType {
        NumberType::ClUshort(NumberTypeKind::Sixteen)
    }

    fn number_type() -> (t: NumberType) {
        NumberType::ClUshort(NumberTypeKind::Sixteen)
    }
}

impl Zeroed for [u16; 16] {
    fn zeroed() -> (z: [u16; 16])
        ensures
            forall|i: int| 0 <= i < 16 ==> z@[i] == 0,
    {
        [0u16, 0u16, 0u16, 0u16, 0u16, 0u16, 0u16, 0u16, 0u16, 0u16, 0u16, 0u16, 0u16, 0u16, 0u16, 0u16]
    }
}

impl ClNumber for [u16; 16] {}

/// Vector containing 2 `u16`.
pub struct ClUshort2([u16; 2]);

impl View for ClUshort2 {
    type V = Seq<u16>;

    closed spec fn view(&self) -> Seq<u16> {
        self.0@
    }
}

impl core::ops::Deref for ClUshort2 {
    type Target = [u16; 2];

    fn deref(&self) -> (v: &[u16; 2])
        ensures
            v@ == self@,
    {
        &self.0
    }
}

impl ToClNumber<[u16; 2]> for ClUshort2 {
    fn to_cl_number(self) -> (v: [u16; 2])
        ensures
            v@ == self@,
    {
        self.0
    }
}

impl FromClNumber<[u16; 2]> for ClUshort2 {
    open spec fn accepts(value: [u16; 2]) -> bool {
        true
    }

    fn from_cl_number(val: [u16; 2]) -> (v: ClUshort2)
        ensures
            v@ == val@,
    {
        ClUshort2(val)
    }
}

impl NumberTypedT for ClUshort2 {
    open spec fn number_type_spec() -> NumberType {
        NumberType::ClUshort(NumberTypeKind::Two)
    }

    fn number_type() -> (t: NumberType) {
        NumberType::ClUshort(NumberTypeKind::Two)
    }
}

/// Vector containing 3 `u16`.
pub struct ClUshort3([u16; 3]);

impl View for ClUshort3 {
    type V = Seq<u16>;

    closed spec fn view(&self) -> Seq<u16> {
        self.0@
    }
}

impl core::ops::Deref for ClUshort3 {
    type Target = [u16; 3];

    fn deref(&self) -> (v: &[u16; 3])
        ensures
            v@ == self@,
    {
        &self.0
    }
}

impl ToClNumber<[u16; 3]> for ClUshort3 {
    fn to_cl_number(self) -> (v: [u16; 3])
        ensures
            v@ == self@,
    {
        self.0
    }
}

impl FromClNumber<[u16; 3]> for ClUshort3 {
    open spec fn accepts(value: [u16; 3]) -> bool {
        true
    }

    fn from_cl_number(val: [u16; 3]) -> (v: ClUshort3)
        ensures
            v@ == val@,
    {
        ClUshort3(val)
    }
}

/// Vector containing 4 `u16`.
pub struct ClUshort4([u16; 4]);

impl View for ClUshort4 {
    type V = Seq<u16>;

    closed spec fn view(&self) -> Seq<u16> {
        self.0@
    }
}

impl core::ops::Deref for ClUshort4 {
    type Target = [u16; 4];

    fn deref(&self) -> (v: &[u16; 4])
        ensures
            v@ == self@,
    {
        &self.0
    }
}

impl ToClNumber<[u16; 4]> for ClUshort4 {
    fn to_cl_number(self) -> (v: [u16; 4])
        ensures
            v@ == self@,
    {
        self.0
    }
}

impl FromClNumber<[u16; 4]> for ClUshort4 {
    open spec fn accepts(value: [u16; 4]) -> bool {
        true
    }

    fn from_cl_number(val: [u16; 4]) -> (v: ClUshort4)
        ensures
            v@ == val@,
    {
        ClUshort4(val)
    }
}

impl NumberTypedT for ClUshort4 {
    open spec fn number_type_spec() -> NumberType {
        NumberType::ClUshort(NumberTypeKind::Four)
    }

    fn number_type() -> (t: NumberType) {
        NumberType::ClUshort(NumberTypeKind::Four)
    }
}

/// Vector containing 8 `u16`.
pub struct ClUshort8([u16; 8]);

impl View for ClUshort8 {
    type V = Seq<u16>;

    closed spec fn view(&self) -> Seq<u16> {
        self.0@
    }
}

impl core::ops::Deref for ClUshort8 {
    type Target = [u16; 8];

    fn deref(&self) -> (v: &[u16; 8])
        ensures
            v@ == self@,
    {
        &self.0
    }
}

impl ToClNumber<[u16; 8]> for ClUshort8 {
    fn to_cl_number(self) -> (v: [u16; 8])
        ensures
            v@ == self@,
    {
        self.0
    }
}

impl FromClNumber<[u16; 8]> for ClUshort8 {
    open spec fn accepts(value: [u16; 8]) -> bool {
        true
    }

    fn from_cl_number(val: [u16; 8]) -> (v: ClUshort8)
        ensures
            v@ == val@,
    {
        ClUshort8(val)
    }
}

impl NumberTypedT for ClUshort8 {
    open spec fn number_type_spec() -> NumberType {
        NumberType::ClUshort(NumberTypeKind::Eight)
    }

    fn number_type() -> (t: NumberType) {
        NumberType::ClUshort(NumberTypeKind::Eight)
    }
}

/// Vector containing 16 `u16`.
pub struct ClUshort16([u16; 16]);

impl View for ClUshort16 {
    type V = Seq<u16>;

    closed spec fn view(&self) -> Seq<u16> {
        self.0@
    }
}

impl core::ops::Deref for ClUshort16 {
    type Target = [u16; 16];

    fn deref(&self) -> (v: &[u16; 16])
        ensures
            v@ == self@,
    {
        &self.0
    }
}

impl ToClNumber<[u16; 16]> for ClUshort16 {
    fn to_cl_number(self) -> (v: [u16; 16])
        ensures
            v@ == self@,
    {
        self.0
    }
}

impl FromClNumber<[u16; 16]> for ClUshort16 {
    open spec fn accepts(value: [u16; 16]) -> bool {
        true
    }

    fn from_cl_number(val: [u16; 16]) -> (v: ClUshort16)
        ensures
            v@ == val@,
    {
        ClUshort16(val)
    }
}

impl NumberTypedT for ClUshort16 {
    open spec fn number_type_spec() -> NumberType {
        NumberType::ClUshort(NumberTypeKind::Sixteen)
    }

    fn number_type() -> (t: NumberType) {
        NumberType::ClUshort(NumberTypeKind::Sixteen)
    }
}

impl NumberTypedT for [i32; 2] {
    open spec fn number_type_spec() -> NumberType {
        NumberType::ClInt(NumberTypeKind::Two)
    }

    fn number_type() -> (t: NumberType) {
        NumberType::ClInt(NumberTypeKind::Two)
    }
}

impl Zeroed for [i32; 2] {
    fn zeroed() -> (z: [i32; 2])
        ensures
            forall|i: int| 0 <= i < 2 ==> z@[i] == 0,
    {
        [0i32, 0i32]
    }
}

impl ClNumber for [i32; 2] {}

impl NumberTypedT for [i32; 4] {
    open spec fn number_type_spec() -> NumberType {
        NumberType::ClInt(NumberTypeKind::Four)
    }

    fn number_type() -> (t: NumberType) {
        NumberType::ClInt(NumberTypeKind::Four)
    }
}

impl Zeroed for [i32; 4] {
    fn zeroed() -> (z: [i32; 4])
        ensures
            forall|i: int| 0 <= i < 4 ==> z@[i] == 0,
    {
        [0i32, 0i32, 0i32, 0i32]
    }
}

impl ClNumber for [i32; 4] {}

impl NumberTypedT for [i32; 8] {
    open spec fn number_type_spec() -> NumberType {
        NumberType::ClInt(NumberTypeKind::Eight)
    }

    fn number_type() -> (t: NumberType) {
        NumberType::ClInt(NumberTypeKind::Eight)
    }
}

impl Zeroed for [i32; 8] {
    fn zeroed() -> (z: [i32; 8])
        ensures
            forall|i: int| 0 <= i < 8 ==> z@[i] == 0,
    {
        [0i32, 0i32, 0i32, 0i32, 0i32, 0i32, 0i32, 0i32]
    }
}

impl ClNumber for [i32; 8] {}

impl NumberTypedT for [i32; 16] {
    open spec fn number_type_spec() -> NumberType {
        NumberType::ClInt(NumberTypeKind::Sixteen)
    }

    fn number_type() -> (t: NumberType) {
        NumberType::ClInt(NumberTypeKind::Sixteen)
    }
}

impl Zeroed for [i32; 16] {
    fn zeroed() -> (z: [i32; 16])
        ensures
            forall|i: int| 0 <= i < 16 ==> z@[i] == 0,
    {
        [0i32, 0i32, 0i32, 0i32, 0i32, 0i32, 0i32, 0i32, 0i32, 0i32, 0i32, 0i32, 0i32, 0i32, 0i32, 0i32]
    }
}

impl ClNumber for [i32; 16] {}

/// Vector containing 2 `i32`.
pub struct ClInt2([i32; 2]);

impl View for ClInt2 {
    type V = Seq<i32>;

    closed spec fn view(&self) -> Seq<i32> {
        self.0@
    }
}

impl core::ops::Deref for ClInt2 {
    type Target = [i32; 2];

    fn deref(&self) -> (v: &[i32; 2])
        ensures
            v@ == self@,
    {
        &self.0
    }
}

impl ToClNumber<[i32; 2]> for ClInt2 {
    fn to_cl_number(self) -> (v: [i32; 2])
        ensures
            v@ == self@,
    {
        self.0
    }
}

impl FromClNumber<[i32; 2]> for ClInt2 {
    open spec fn accepts(value: [i32; 2]) -> bool {
        true
    }

    fn from_cl_number(val: [i32; 2]) -> (v: ClInt2)
        ensures
            v@ == val@,
    {
        ClInt2(val)
    }
}

impl NumberTypedT for ClInt2 {
    open spec fn number_type_spec() -> NumberType {
        NumberType::ClInt(NumberTypeKind::Two)
    }

    fn number_type() -> (t: NumberType) {
        NumberType::ClInt(NumberTypeKind::Two)
    }
}

/// Vector containing 3 `i32`.
pub struct ClInt3([i32; 3]);

impl View for ClInt3 {
    type V = Seq<i32>;

    closed spec fn view(&self) -> Seq<i32> {
        self.0@
    }
}

impl core::ops::Deref for ClInt3 {
    type Target = [i32; 3];

    fn deref(&self) -> (v: &[i32; 3])
        ensures
            v@ == self@,
    {
        &self.0
    }
}

impl ToClNumber<[i32; 3]> for ClInt3 {
    fn to_cl_number(self) -> (v: [i32; 3])
        ensures
            v@ == self@,
    {
        self.0
    }
}

impl FromClNumber<[i32; 3]> for ClInt3 {
    open spec fn accepts(value: [i32; 3]) -> bool {
        true
    }

    fn from_cl_number(val: [i32; 3]) -> (v: ClInt3)
        ensures
            v@ == val@,
    {
        ClInt3(val)
    }
}

/// Vector containing 4 `i32`.
pub struct ClInt4([i32; 4]);

impl View for ClInt4 {
    type V = Seq<i32>;

    closed spec fn view(&self) -> Seq<i32> {
        self.0@
    }
}

impl core::ops::Deref for ClInt4 {
    type Target = [i32; 4];

    fn deref(&self) -> (v: &[i32; 4])
        ensures
            v@ == self@,
    {
        &self.0
    }
}

impl ToClNumber<[i32; 4]> for ClInt4 {
    fn to_cl_number(self) -> (v: [i32; 4])
        ensures
            v@ == self@,
    {
        self.0
    }
}

impl FromClNumber<[i32; 4]> for ClInt4 {
    open spec fn accepts(value: [i32; 4]) -> bool {
        true
    }

    fn from_cl_number(val: [i32; 4]) -> (v: ClInt4)
        ensures
            v@ == val@,
    {
        ClInt4(val)
    }
}

impl NumberTypedT for ClInt4 {
    open spec fn number_type_spec() -> NumberType {
        NumberType::ClInt(NumberTypeKind::Four)
    }

    fn number_type() -> (t: NumberType) {
        NumberType::ClInt(NumberTypeKind::Four)
    }
}

/// Vector containing 8 `i32`.
pub struct ClInt8([i32; 8]);

impl View for ClInt8 {
    type V = Seq<i32>;

    closed spec fn view(&self) -> Seq<i32> {
        self.0@
    }
}

impl core::ops::Deref for ClInt8 {
    type Target = [i32; 8];

    fn deref(&self) -> (v: &[i32; 8])
        ensures
            v@ == self@,
    {
        &self.0
    }
}

impl ToClNumber<[i32; 8]> for ClInt8 {
    fn to_cl_number(self) -> (v: [i32; 8])
        ensures
            v@ == self@,
    {
        self.0
    }
}

impl FromClNumber<[i32; 8]> for ClInt8 {
    open spec fn accepts(value: [i32; 8]) -> bool {
        true
    }

    fn from_cl_number(val: [i32; 8]) -> (v: ClInt8)
        ensures
            v@ == val@,
    {
        ClInt8(val)
    }
}

impl NumberTypedT for ClInt8 {
    open spec fn number_type_spec() -> NumberType {
        NumberType::ClInt(NumberTypeKind::Eight)
    }

    fn number_type() -> (t: NumberType) {
        NumberType::ClInt(NumberTypeKind::Eight)
    }
}

/// Vector containing 16 `i32`.
pub struct ClInt16([i32; 16]);

impl View for ClInt16 {
    type V = Seq<i32>;

    closed spec fn view(&self) -> Seq<i32> {
        self.0@
    }
}

impl core::ops::Deref for ClInt16 {
    type Target = [i32; 16];

    fn deref(&self) -> (v: &[i32; 16])
        ensures
            v@ == self@,
    {
        &self.0
    }
}

impl ToClNumber<[i32; 16]> for ClInt16 {
    fn to_cl_number(self) -> (v: [i32; 16])
        ensures
            v@ == self@,
    {
        self.0
    }
}

impl FromClNumber<[i32; 16]> for ClInt16 {
    open spec fn accepts(value: [i32; 16]) -> bool {
        true
    }

    fn from_cl_number(val: [i32; 16]) -> (v: ClInt16)
        ensures
            v@ == val@,
    {
        ClInt16(val)
    }
}

impl NumberTypedT for ClInt16 {
    open spec fn number_type_spec() -> NumberType {
        NumberType::ClInt(NumberTypeKind::Sixteen)
    }

    fn number_type() -> (t: NumberType) {
        NumberType::ClInt(NumberTypeKind::Sixteen)
    }
}

impl NumberTypedT for [u32; 2] {
    open spec fn number_type_spec() -> NumberType {
        NumberType::ClUint(NumberTypeKind::Two)
    }

    fn number_type() -> (t: NumberType) {
        NumberType::ClUint(NumberTypeKind::Two)
    }
}

impl Zeroed for [u32; 2] {
    fn zeroed() -> (z: [u32; 2])
        ensures
            forall|i: int| 0 <= i < 2 ==> z@[i] == 0,
    {
        [0u32, 0u32]
    }
}

impl ClNumber for [u32; 2] {}

impl NumberTypedT for [u32; 4] {
    open spec fn number_type_spec() -> NumberType {
        NumberType::ClUint(NumberTypeKind::Four)
    }

    fn number_type() -> (t: NumberType) {
        NumberType::ClUint(NumberTypeKind::Four)
    }
}

impl Zeroed for [u32; 4] {
    fn zeroed() -> (z: [u32; 4])
        ensures
            forall|i: int| 0 <= i < 4 ==> z@[i] == 0,
    {
        [0u32, 0u32, 0u32, 0u32]
    }
}

impl ClNumber for [u32; 4] {}

impl NumberTypedT for [u32; 8] {
    open spec fn number_type_spec() -> NumberType {
        NumberType::ClUint(NumberTypeKind::Eight)
    }

    fn number_type() -> (t: NumberType) {
        NumberType::ClUint(NumberTypeKind::Eight)
    }
}

impl Zeroed for [u32; 8] {
    fn zeroed() -> (z: [u32; 8])
        ensures
            forall|i: int| 0 <= i < 8 ==> z@[i] == 0,
    {
        [0u32, 0u32, 0u32, 0u32, 0u32, 0u32, 0u32, 0u32]
    }
}

impl ClNumber for [u32; 8] {}

impl NumberTypedT for [u32; 16] {
    open spec fn number_type_spec() -> NumberType {
        NumberType::ClUint(NumberTypeKind::Sixteen)
    }

    fn number_type() -> (t: NumberType) {
        NumberType::ClUint(NumberTypeKind::Sixteen)
    }
}

impl Zeroed for [u32; 16] {
    fn zeroed() -> (z: [u32; 16])
        ensures
            forall|i: int| 0 <= i < 16 ==> z@[i] == 0,
    {
        [0u32, 0u32, 0u32, 0u32, 0u32, 0u32, 0u32, 0u32, 0u32, 0u32, 0u32, 0u32, 0u32, 0u32, 0u32, 0u32]
    }
}

impl ClNumber for [u32; 16] {}

/// Vector containing 2 `u32`.
pub struct ClUint2([u32; 2]);

impl View for ClUint2 {
    type V = Seq<u32>;

    closed spec fn view(&self) -> Seq<u32> {
        self.0@
    }
}

impl core::ops::Deref for ClUint2 {
    type Target = [u32; 2];

    fn deref(&self) -> (v: &[u32; 2])
        ensures
            v@ == self@,
    {
        &self.0
    }
}

impl ToClNumber<[u32; 2]> for ClUint2 {
    fn to_cl_number(self) -> (v: [u32; 2])
        ensures
            v@ == self@,
    {
        self.0
    }
}

impl FromClNumber<[u32; 2]> for ClUint2 {
    open spec fn accepts(value: [u32; 2]) -> bool {
        true
    }

    fn from_cl_number(val: [u32; 2]) -> (v: ClUint2)
        ensures
            v@ == val@,
    {
        ClUint2(val)
    }
}

impl NumberTypedT for ClUint2 {
    open spec fn number_type_spec() -> NumberType {
        NumberType::ClUint(NumberTypeKind::Two)
    }

    fn number_type() -> (t: NumberType) {
        NumberType::ClUint(NumberTypeKind::Two)
    }
}

/// Vector containing 3 `u32`.
pub struct ClUint3([u32; 3]);

impl View for ClUint3 {
    type V = Seq<u32>;

    closed spec fn view(&self) -> Seq<u32> {
        self.0@
    }
}

impl core::ops::Deref for ClUint3 {
    type Target = [u32; 3];

    fn deref(&self) -> (v: &[u32; 3])
        ensures
            v@ == self@,
    {
        &self.0
    }
}

impl ToClNumber<[u32; 3]> for ClUint3 {
    fn to_cl_number(self) -> (v: [u32; 3])
        ensures
            v@ == self@,
    {
        self.0
    }
}

impl FromClNumber<[u32; 3]> for ClUint3 {
    open spec fn accepts(value: [u32; 3]) -> bool {
        true
    }

    fn from_cl_number(val: [u32; 3]) -> (v: ClUint3)
        ensures
            v@ == val@,
    {
        ClUint3(val)
    }
}

/// Vector containing 4 `u32`.
pub struct ClUint4([u32; 4]);

impl View for ClUint4 {
    type V = Seq<u32>;

    closed spec fn view(&self) -> Seq<u32> {
        self.0@
    }
}

impl core::ops::Deref for ClUint4 {
    type Target = [u32; 4];

    fn deref(&self) -> (v: &[u32; 4])
        ensures
            v@ == self@,
    {
        &self.0
    }
}

impl ToClNumber<[u32; 4]> for ClUint4 {
    fn to_cl_number(self) -> (v: [u32; 4])
        ensures
            v@ == self@,
    {
        self.0
    }
}

impl FromClNumber<[u32; 4]> for ClUint4 {
    open spec fn accepts(value: [u32; 4]) -> bool {
        true
    }

    fn from_cl_number(val: [u32; 4]) -> (v: ClUint4)
        ensures
            v@ == val@,
    {
        ClUint4(val)
    }
}

impl NumberTypedT for ClUint4 {
    open spec fn number_type_spec() -> NumberType {
        NumberType::ClUint(NumberTypeKind::Four)
    }

    fn number_type() -> (t: NumberType) {
        NumberType::ClUint(NumberTypeKind::Four)
    }
}

/// Vector containing 8 `u32`.
pub struct ClUint8([u32; 8]);

impl View for ClUint8 {
    type V = Seq<u32>;

    closed spec fn view(&self) -> Seq<u32> {
        self.0@
    }
}

impl core::ops::Deref for ClUint8 {
    type Target = [u32; 8];

    fn deref(&self) -> (v: &[u32; 8])
        ensures
            v@ == self@,
    {
        &self.0
    }
}

impl ToClNumber<[u32; 8]> for ClUint8 {
    fn to_cl_number(self) -> (v: [u32; 8])
        ensures
            v@ == self@,
    {
        self.0
    }
}

impl FromClNumber<[u32; 8]> for ClUint8 {
    open spec fn accepts(value: [u32; 8]) -> bool {
        true
    }

    fn from_cl_number(val: [u32; 8]) -> (v: ClUint8)
        ensures
            v@ == val@,
    {
        ClUint8(val)
    }
}

impl NumberTypedT for ClUint8 {
    open spec fn number_type_spec() -> NumberType {
        NumberType::ClUint(NumberTypeKind::Eight)
    }

    fn number_type() -> (t: NumberType) {
        NumberType::ClUint(NumberTypeKind::Eight)
    }
}

/// Vector containing 16 `u32`.
pub struct ClUint16([u32; 16]);

impl View for ClUint16 {
    type V = Seq<u32>;

    closed spec fn view(&self) -> Seq<u32> {
        self.0@
    }
}

impl core::ops::Deref for ClUint16 {
    type Target = [u32; 16];

    fn deref(&self) -> (v: &[u32; 16])
        ensures
            v@ == self@,
    {
        &self.0
    }
}

impl ToClNumber<[u32; 16]> for ClUint16 {
    fn to_cl_number(self) -> (v: [u32; 16])
        ensures
            v@ == self@,
    {
        self.0
    }
}

impl FromClNumber<[u32; 16]> for ClUint16 {
    open spec fn accepts(value: [u32; 16]) -> bool {
        true
    }

    fn from_cl_number(val: [u32; 16]) -> (v: ClUint16)
        ensures
            v@ == val@,
    {
        ClUint16(val)
    }
}

impl NumberTypedT for ClUint16 {
    open spec fn number_type_spec() -> NumberType {
        NumberType::ClUint(NumberTypeKind::Sixteen)
    }

    fn number_type() -> (t: NumberType) {
        NumberType::ClUint(NumberTypeKind::Sixteen)
    }
}

impl NumberTypedT for [i64; 2] {
    open spec fn number_type_spec() -> NumberType {
        NumberType::ClLong(NumberTypeKind::Two)
    }

    fn number_type() -> (t: NumberType) {
        NumberType::ClLong(NumberTypeKind::Two)
    }
}

impl Zeroed for [i64; 2] {
    fn zeroed() -> (z: [i64; 2])
        ensures
            forall|i: int| 0 <= i < 2 ==> z@[i] == 0,
    {
        [0i64, 0i64]
    }
}

impl ClNumber for [i64; 2] {}

impl NumberTypedT for [i64; 4] {
    open spec fn number_type_spec() -> NumberType {
        NumberType::ClLong(NumberTypeKind::Four)
    }

    fn number_type() -> (t: NumberType) {
        NumberType::ClLong(NumberTypeKind::Four)
    }
}

impl Zeroed for [i64; 4] {
    fn zeroed() -> (z: [i64; 4])
        ensures
            forall|i: int| 0 <= i < 4 ==> z@[i] == 0,
    {
        [0i64, 0i64, 0i64, 0i64]
    }
}

impl ClNumber for [i64; 4] {}

impl NumberTypedT for [i64; 8] {
    open spec fn number_type_spec() -> NumberType {
        NumberType::ClLong(NumberTypeKind::Eight)
    }

    fn number_type() -> (t: NumberType) {
        NumberType::ClLong(NumberTypeKind::Eight)
    }
}

impl Zeroed for [i64; 8] {
    fn zeroed() -> (z: [i64; 8])
        ensures
            forall|i: int| 0 <= i < 8 ==> z@[i] == 0,
    {
        [0i64, 0i64, 0i64, 0i64, 0i64, 0i64, 0i64, 0i64]
    }
}

impl ClNumber for [i64; 8] {}

impl NumberTypedT for [i64; 16] {
    open spec fn number_type_spec() -> NumberType {
        NumberType::ClLong(NumberTypeKind::Sixteen)
    }

    fn number_type() -> (t: NumberType) {
        NumberType::ClLong(NumberTypeKind::Sixteen)
    }
}

impl Zeroed for [i64; 16] {
    fn zeroed() -> (z: [i64; 16])
        ensures
            forall|i: int| 0 <= i < 16 ==> z@[i] == 0,
    {
        [0i64, 0i64, 0i64, 0i64, 0i64, 0i64, 0i64, 0i64, 0i64, 0i64, 0i64, 0i64, 0i64, 0i64, 0i64, 0i64]
    }
}

impl ClNumber for [i64; 16] {}

/// Vector containing 2 `i64`.
pub struct ClLong2([i64; 2]);

impl View for ClLong2 {
    type V = Seq<i64>;

    closed spec fn view(&self) -> Seq<i64> {
        self.0@
    }
}

impl core::ops::Deref for ClLong2 {
    type Target = [i64; 2];

    fn deref(&self) -> (v: &[i64; 2])
        ensures
            v@ == self@,
    {
        &self.0
    }
}

impl ToClNumber<[i64; 2]> for ClLong2 {
    fn to_cl_number(self) -> (v: [i64; 2])
        ensures
            v@ == self@,
    {
        self.0
    }
}

impl FromClNumber<[i64; 2]> for ClLong2 {
    open spec fn accepts(value: [i64; 2]) -> bool {
        true
    }

    fn from_cl_number(val: [i64; 2]) -> (v: ClLong2)
        ensures
            v@ == val@,
    {
        ClLong2(val)
    }
}

impl NumberTypedT for ClLong2 {
    open spec fn number_type_spec() -> NumberType {
        NumberType::ClLong(NumberTypeKind::Two)
    }

    fn number_type() -> (t: NumberType) {
        NumberType::ClLong(NumberTypeKind::Two)
    }
}

/// Vector containing 3 `i64`.
pub struct ClLong3([i64; 3]);

impl View for ClLong3 {
    type V = Seq<i64>;

    closed spec fn view(&self) -> Seq<i64> {
        self.0@
    }
}

impl core::ops::Deref for ClLong3 {
    type Target = [i64; 3];

    fn deref(&self) -> (v: &[i64; 3])
        ensures
            v@ == self@,
    {
        &self.0
    }
}

impl ToClNumber<[i64; 3]> for ClLong3 {
    fn to_cl_number(self) -> (v: [i64; 3])
        ensures
            v@ == self@,
    {
        self.0
    }
}

impl FromClNumber<[i64; 3]> for ClLong3 {
    open spec fn accepts(value: [i64; 3]) -> bool {
        true
    }

    fn from_cl_number(val: [i64; 3]) -> (v: ClLong3)
        ensures
            v@ == val@,
    {
        ClLong3(val)
    }
}

/// Vector containing 4 `i64`.
pub struct ClLong4([i64; 4]);

impl View for ClLong4 {
    type V = Seq<i64>;

    closed spec fn view(&self) -> Seq<i64> {
        self.0@
    }
}

impl core::ops::Deref for ClLong4 {
    type Target = [i64; 4];

    fn deref(&self) -> (v: &[i64; 4])
        ensures
            v@ == self@,
    {
        &self.0
    }
}

impl ToClNumber<[i64; 4]> for ClLong4 {
    fn to_cl_number(self) -> (v: [i64; 4])
        ensures
            v@ == self@,
    {
        self.0
    }
}

impl FromClNumber<[i64; 4]> for ClLong4 {
    open spec fn accepts(value: [i64; 4]) -> bool {
        true
    }

    fn from_cl_number(val: [i64; 4]) -> (v: ClLong4)
        ensures
            v@ == val@,
    {
        ClLong4(val)
    }
}

impl NumberTypedT for ClLong4 {
    open spec fn number_type_spec() -> NumberType {
        NumberType::ClLong(NumberTypeKind::Four)
    }

    fn number_type() -> (t: NumberType) {
        NumberType::ClLong(NumberTypeKind::Four)
    }
}

/// Vector containing 8 `i64`.
pub struct ClLong8([i64; 8]);

impl View for ClLong8 {
    type V = Seq<i64>;

    closed spec fn view(&self) -> Seq<i64> {
        self.0@
    }
}

impl core::ops::Deref for ClLong8 {
    type Target = [i64; 8];

    fn deref(&self) -> (v: &[i64; 8])
        ensures
            v@ == self@,
    {
        &self.0
    }
}

impl ToClNumber<[i64; 8]> for ClLong8 {
    fn to_cl_number(self) -> (v: [i64; 8])
        ensures
            v@ == self@,
    {
        self.0
    }
}

impl FromClNumber<[i64; 8]> for ClLong8 {
    open spec fn accepts(value: [i64; 8]) -> bool {
        true
    }

    fn from_cl_number(val: [i64; 8]) -> (v: ClLong8)
        ensures
            v@ == val@,
    {
        ClLong8(val)
    }
}

impl NumberTypedT for ClLong8 {
    open spec fn number_type_spec() -> NumberType {
        NumberType::ClLong(NumberTypeKind::Eight)
    }

    fn number_type() -> (t: NumberType) {
        NumberType::ClLong(NumberTypeKind::Eight)
    }
}

/// Vector containing 16 `i64`.
pub struct ClLong16([i64; 16]);

impl View for ClLong16 {
    type V = Seq<i64>;

    closed spec fn view(&self) -> Seq<i64> {
        self.0@
    }
}

impl core::ops::Deref for ClLong16 {
    type Target = [i64; 16];

    fn deref(&self) -> (v: &[i64; 16])
        ensures
            v@ == self@,
    {
        &self.0
    }
}

impl ToClNumber<[i64; 16]> for ClLong16 {
    fn to_cl_number(self) -> (v: [i64; 16])
        ensures
            v@ == self@,
    {
        self.0
    }
}

impl FromClNumber<[i64; 16]> for ClLong16 {
    open spec fn accepts(value: [i64; 16]) -> bool {
        true
    }

    fn from_cl_number(val: [i64; 16]) -> (v: ClLong16)
        ensures
            v@ == val@,
    {
        ClLong16(val)
    }
}

impl NumberTypedT for ClLong16 {
    open spec fn number_type_spec() -> NumberType {
        NumberType::ClLong(NumberTypeKind::Sixteen)
    }

    fn number_type() -> (t: NumberType) {
        NumberType::ClLong(NumberTypeKind::Sixteen)
    }
}

impl NumberTypedT for [u64; 2] {
    open spec fn number_type_spec() -> NumberType {
        NumberType::ClUlong(NumberTypeKind::Two)
    }

    fn number_type() -> (t: NumberType) {
        NumberType::ClUlong(NumberTypeKind::Two)
    }
}

impl Zeroed for [u64; 2] {
    fn zeroed() -> (z: [u64; 2])
        ensures
            forall|i: int| 0 <= i < 2 ==> z@[i] == 0,
    {
        [0u64, 0u64]
    }
}

impl ClNumber for [u64; 2] {}

impl NumberTypedT for [u64; 4] {
    open spec fn number_type_spec() -> NumberType {
        NumberType::ClUlong(NumberTypeKind::Four)
    }

    fn number_type() -> (t: NumberType) {
        NumberType::ClUlong(NumberTypeKind::Four)
    }
}

impl Zeroed for [u64; 4] {
    fn zeroed() -> (z: [u64; 4])
        ensures
            forall|i: int| 0 <= i < 4 ==> z@[i] == 0,
    {
        [0u64, 0u64, 0u64, 0u64]
    }
}

impl ClNumber for [u64; 4] {}

impl NumberTypedT for [u64; 8] {
    open spec fn number_type_spec() -> NumberType {
        NumberType::ClUlong(NumberTypeKind::Eight)
    }

    fn number_type() -> (t: NumberType) {
        NumberType::ClUlong(NumberTypeKind::Eight)
    }
}

impl Zeroed for [u64; 8] {
    fn zeroed() -> (z: [u64; 8])
        ensures
            forall|i: int| 0 <= i < 8 ==> z@[i] == 0,
    {
        [0u64, 0u64, 0u64, 0u64, 0u64, 0u64, 0u64, 0u64]
    }
}

impl ClNumber for [u64; 8] {}

impl NumberTypedT for [u64; 16] {
    open spec fn number_type_spec() -> NumberType {
        NumberType::ClUlong(NumberTypeKind::Sixteen)
    }

    fn number_type() -> (t: NumberType) {
        NumberType::ClUlong(NumberTypeKind::Sixteen)
    }
}

impl Zeroed for [u64; 16] {
    fn zeroed() -> (z: [u64; 16])
        ensures
            forall|i: int| 0 <= i < 16 ==> z@[i] == 0,
    {
        [0u64, 0u64, 0u64, 0u64, 0u64, 0u64, 0u64, 0u64, 0u64, 0u64, 0u64, 0u64, 0u64, 0u64, 0u64, 0u64]
    }
}

impl ClNumber for [u64; 16] {}

/// Vector containing 2 `u64`.
pub struct ClUlong2([u64; 2]);

impl View for ClUlong2 {
    type V = Seq<u64>;

    closed spec fn view(&self) -> Seq<u64> {
        self.0@
    }
}

impl core::ops::Deref for ClUlong2 {
    type Target = [u64; 2];

    fn deref(&self) -> (v: &[u64; 2])
        ensures
            v@ == self@,
    {
        &self.0
    }
}

impl ToClNumber<[u64; 2]> for ClUlong2 {
    fn to_cl_number(self) -> (v: [u64; 2])
        ensures
            v@ == self@,
    {
        self.0
    }
}

impl FromClNumber<[u64; 2]> for ClUlong2 {
    open spec fn accepts(value: [u64; 2]) -> bool {
        true
    }

    fn from_cl_number(val: [u64; 2]) -> (v: ClUlong2)
        ensures
            v@ == val@,
    {
        ClUlong2(val)
    }
}

impl NumberTypedT for ClUlong2 {
    open spec fn number_type_spec() -> NumberType {
        NumberType::ClUlong(NumberTypeKind::Two)
    }

    fn number_type() -> (t: NumberType) {
        NumberType::ClUlong(NumberTypeKind::Two)
    }
}

/// Vector containing 3 `u64`.
pub struct ClUlong3([u64; 3]);

impl View for ClUlong3 {
    type V = Seq<u64>;

    closed spec fn view(&self) -> Seq<u64> {
        self.0@
    }
}

impl core::ops::Deref for ClUlong3 {
    type Target = [u64; 3];

    fn deref(&self) -> (v: &[u64; 3])
        ensures
            v@ == self@,
    {
        &self.0
    }
}

impl ToClNumber<[u64; 3]> for ClUlong3 {
    fn to_cl_number(self) -> (v: [u64; 3])
        ensures
            v@ == self@,
    {
        self.0
    }
}

impl FromClNumber<[u64; 3]> for ClUlong3 {
    open spec fn accepts(value: [u64; 3]) -> bool {
        true
    }

    fn from_cl_number(val: [u64; 3]) -> (v: ClUlong3)
        ensures
            v@ == val@,
    {
        ClUlong3(val)
    }
}

/// Vector containing 4 `u64`.
pub struct ClUlong4([u64; 4]);

impl View for ClUlong4 {
    type V = Seq<u64>;

    closed spec fn view(&self) -> Seq<u64> {
        self.0@
    }
}

impl core::ops::Deref for ClUlong4 {
    type Target = [u64; 4];

    fn deref(&self) -> (v: &[u64; 4])
        ensures
            v@ == self@,
    {
        &self.0
    }
}

impl ToClNumber<[u64; 4]> for ClUlong4 {
    fn to_cl_number(self) -> (v: [u64; 4])
        ensures
            v@ == self@,
    {
        self.0
    }
}

impl FromClNumber<[u64; 4]> for ClUlong4 {
    open spec fn accepts(value: [u64; 4]) -> bool {
        true
    }

    fn from_cl_number(val: [u64; 4]) -> (v: ClUlong4)
        ensures
            v@ == val@,
    {
        ClUlong4(val)
    }
}

impl NumberTypedT for ClUlong4 {
    open spec fn number_type_spec() -> NumberType {
        NumberType::ClUlong(NumberTypeKind::Four)
    }

    fn number_type() -> (t: NumberType) {
        NumberType::ClUlong(NumberTypeKind::Four)
    }
}

/// Vector containing 8 `u64`.
pub struct ClUlong8([u64; 8]);

impl View for ClUlong8 {
    type V = Seq<u64>;

    closed spec fn view(&self) -> Seq<u64> {
        self.0@
    }
}

impl core::ops::Deref for ClUlong8 {
    type Target = [u64; 8];

    fn deref(&self) -> (v: &[u64; 8])
        ensures
            v@ == self@,
    {
        &self.0
    }
}

impl ToClNumber<[u64; 8]> for ClUlong8 {
    fn to_cl_number(self) -> (v: [u64; 8])
        ensures
            v@ == self@,
    {
        self.0
    }
}

impl FromClNumber<[u64; 8]> for ClUlong8 {
    open spec fn accepts(value: [u64; 8]) -> bool {
        true
    }

    fn from_cl_number(val: [u64; 8]) -> (v: ClUlong8)
        ensures
            v@ == val@,
    {
        ClUlong8(val)
    }
}

impl NumberTypedT for ClUlong8 {
    open spec fn number_type_spec() -> NumberType {
        NumberType::ClUlong(NumberTypeKind::Eight)
    }

    fn number_type() -> (t: NumberType) {
        NumberType::ClUlong(NumberTypeKind::Eight)
    }
}

/// Vector containing 16 `u64`.
pub struct ClUlong16([u64; 16]);

impl View for ClUlong16 {
    type V = Seq<u64>;

    closed spec fn view(&self) -> Seq<u64> {
        self.0@
    }
}

impl core::ops::Deref for ClUlong16 {
    type Target = [u64; 16];

    fn deref(&self) -> (v: &[u64; 16])
        ensures
            v@ == self@,
    {
        &self.0
    }
}

impl ToClNumber<[u64; 16]> for ClUlong16 {
    fn to_cl_number(self) -> (v: [u64; 16])
        ensures
            v@ == self@,
    {
        self.0
    }
}

impl FromClNumber<[u64; 16]> for ClUlong16 {
    open spec fn accepts(value: [u64; 16]) -> bool {
        true
    }

    fn from_cl_number(val: [u64; 16]) -> (v: ClUlong16)
        ensures
            v@ == val@,
    {
        ClUlong16(val)
    }
}

impl NumberTypedT for ClUlong16 {
    open spec fn number_type_spec() -> NumberType {
        NumberType::ClUlong(NumberTypeKind::Sixteen)
    }

    fn number_type() -> (t: NumberType) {
        NumberType::ClUlong(NumberTypeKind::Sixteen)
    }
}

/// The size that the number type of a vector of 2, 4, 8 or 16 numbers gives is the number
/// of lanes times the size of one number.
pub proof fn lemma_vector_number_type_sizes()
    ensures
        <[i8; 2] as NumberTypedT>::number_type_spec().size_spec() == 2 * vstd::layout::size_of::<i8>(),
        <[i8; 4] as NumberTypedT>::number_type_spec().size_spec() == 4 * vstd::layout::size_of::<i8>(),
        <[i8; 8] as NumberTypedT>::number_type_spec().size_spec() == 8 * vstd::layout::size_of::<i8>(),
        <[i8; 16] as NumberTypedT>::number_type_spec().size_spec() == 16 * vstd::layout::size_of::<i8>(),
        <[u8; 2] as NumberTypedT>::number_type_spec().size_spec() == 2 * vstd::layout::size_of::<u8>(),
        <[u8; 4] as NumberTypedT>::number_type_spec().size_spec() == 4 * vstd::layout::size_of::<u8>(),
        <[u8; 8] as NumberTypedT>::number_type_spec().size_spec() == 8 * vstd::layout::size_of::<u8>(),
        <[u8; 16] as NumberTypedT>::number_type_spec().size_spec() == 16 * vstd::layout::size_of::<u8>(),
        <[i16; 2] as NumberTypedT>::number_type_spec().size_spec() == 2 * vstd::layout::size_of::<i16>(),
        <[i16; 4] as NumberTypedT>::number_type_spec().size_spec() == 4 * vstd::layout::size_of::<i16>(),
        <[i16; 8] as NumberTypedT>::number_type_spec().size_spec() == 8 * vstd::layout::size_of::<i16>(),
        <[i16; 16] as NumberTypedT>::number_type_spec().size_spec() == 16 * vstd::layout::size_of::<i16>(),
        <[u16; 2] as NumberTypedT>::number_type_spec().size_spec() == 2 * vstd::layout::size_of::<u16>(),
        <[u16; 4] as NumberTypedT>::number_type_spec().size_spec() == 4 * vstd::layout::size_of::<u16>(),
        <[u16; 8] as NumberTypedT>::number_type_spec().size_spec() == 8 * vstd::layout::size_of::<u16>(),
        <[u16; 16] as NumberTypedT>::number_type_spec().size_spec() == 16 * vstd::layout::size_of::<u16>(),
        <[i32; 2] as NumberTypedT>::number_type_spec().size_spec() == 2 * vstd::layout::size_of::<i32>(),
        <[i32; 4] as NumberTypedT>::number_type_spec().size_spec() == 4 * vstd::layout::size_of::<i32>(),
        <[i32; 8] as NumberTypedT>::number_type_spec().size_spec() == 8 * vstd::layout::size_of::<i32>(),
        <[i32; 16] as NumberTypedT>::number_type_spec().size_spec() == 16 * vstd::layout::size_of::<i32>(),
        <[u32; 2] as NumberTypedT>::number_type_spec().size_spec() == 2 * vstd::layout::size_of::<u32>(),
        <[u32; 4] as NumberTypedT>::number_type_spec().size_spec() == 4 * vstd::layout::size_of::<u32>(),
        <[u32; 8] as NumberTypedT>::number_type_spec().size_spec() == 8 * vstd::layout::size_of::<u32>(),
        <[u32; 16] as NumberTypedT>::number_type_spec().size_spec() == 16 * vstd::layout::size_of::<u32>(),
        <[i64; 2] as NumberTypedT>::number_type_spec().size_spec() == 2 * vstd::layout::size_of::<i64>(),
        <[i64; 4] as NumberTypedT>::number_type_spec().size_spec() == 4 * vstd::layout::size_of::<i64>(),
        <[i64; 8] as NumberTypedT>::number_type_spec().size_spec() == 8 * vstd::layout::size_of::<i64>(),
        <[i64; 16] as NumberTypedT>::number_type_spec().size_spec() == 16 * vstd::layout::size_of::<i64>(),
        <[u64; 2] as NumberTypedT>::number_type_spec().size_spec() == 2 * vstd::layout::size_of::<u64>(),
        <[u64; 4] as NumberTypedT>::number_type_spec().size_spec() == 4 * vstd::layout::size_of::<u64>(),
        <[u64; 8] as NumberTypedT>::number_type_spec().size_spec() == 8 * vstd::layout::size_of::<u64>(),
        <[u64; 16] as NumberTypedT>::number_type_spec().size_spec() == 16 * vstd::layout::size_of::<u64>(),
{
    broadcast use vstd::layout::layout_of_primitives;

}

/// Every vector type names the OpenCL type of its lanes with the kind of its lane count:
/// `[u32; 4]` and `ClUint4` are `cl_uint4`, `[i8; 16]` and `ClChar16` are `cl_char16`, and so
/// on for every element type and every lane count of 2, 4, 8 and 16.
pub proof fn lemma_number_types_of_vectors()
    ensures
        forall|t: NumberType| #[trigger] call_ensures(<[i8; 2] as NumberTypedT>::number_type, (), t) ==> t == NumberType::ClChar(NumberTypeKind::Two),
        forall|t: NumberType| #[trigger] call_ensures(<ClChar2 as NumberTypedT>::number_type, (), t) ==> t == NumberType::ClChar(NumberTypeKind::Two),
        forall|t: NumberType| #[trigger] call_ensures(<[i8; 4] as NumberTypedT>::number_type, (), t) ==> t == NumberType::ClChar(NumberTypeKind::Four),
        forall|t: NumberType| #[trigger] call_ensures(<ClChar4 as NumberTypedT>::number_type, (), t) ==> t == NumberType::ClChar(NumberTypeKind::Four),
        forall|t: NumberType| #[trigger] call_ensures(<[i8; 8] as NumberTypedT>::number_type, (), t) ==> t == NumberType::ClChar(NumberTypeKind::Eight),
        forall|t: NumberType| #[trigger] call_ensures(<ClChar8 as NumberTypedT>::number_type, (), t) ==> t == NumberType::ClChar(NumberTypeKind::Eight),
        forall|t: NumberType| #[trigger] call_ensures(<[i8; 16] as NumberTypedT>::number_type, (), t) ==> t == NumberType::ClChar(NumberTypeKind::Sixteen),
        forall|t: NumberType| #[trigger] call_ensures(<ClChar16 as NumberTypedT>::number_type, (), t) ==> t == NumberType::ClChar(NumberTypeKind::Sixteen),
        forall|t: NumberType| #[trigger] call_ensures(<[u8; 2] as NumberTypedT>::number_type, (), t) ==> t == NumberType::ClUchar(NumberTypeKind::Two),
        forall|t: NumberType| #[trigger] call_ensures(<ClUchar2 as NumberTypedT>::number_type, (), t) ==> t == NumberType::ClUchar(NumberTypeKind::Two),
        forall|t: NumberType| #[trigger] call_ensures(<[u8; 4] as NumberTypedT>::number_type, (), t) ==> t == NumberType::ClUchar(NumberTypeKind::Four),
        forall|t: NumberType| #[trigger] call_ensures(<ClUchar4 as NumberTypedT>::number_type, (), t) ==> t == NumberType::ClUchar(NumberTypeKind::Four),
        forall|t: NumberType| #[trigger] call_ensures(<[u8; 8] as NumberTypedT>::number_type, (), t) ==> t == NumberType::ClUchar(NumberTypeKind::Eight),
        forall|t: NumberType| #[trigger] call_ensures(<ClUchar8 as NumberTypedT>::number_type, (), t) ==> t == NumberType::ClUchar(NumberTypeKind::Eight),
        forall|t: NumberType| #[trigger] call_ensures(<[u8; 16] as NumberTypedT>::number_type, (), t) ==> t == NumberType::ClUchar(NumberTypeKind::Sixteen),
        forall|t: NumberType| #[trigger] call_ensures(<ClUchar16 as NumberTypedT>::number_type, (), t) ==> t == NumberType::ClUchar(NumberTypeKind::Sixteen),
        forall|t: NumberType| #[trigger] call_ensures(<[i16; 2] as NumberTypedT>::number_type, (), t) ==> t == NumberType::ClShort(NumberTypeKind::Two),
        forall|t: NumberType| #[trigger] call_ensures(<ClShort2 as NumberTypedT>::number_type, (), t) ==> t == NumberType::ClShort(NumberTypeKind::Two),
        forall|t: NumberType| #[trigger] call_ensures(<[i16; 4] as NumberTypedT>::number_type, (), t) ==> t == NumberType::ClShort(NumberTypeKind::Four),
        forall|t: NumberType| #[trigger] call_ensures(<ClShort4 as NumberTypedT>::number_type, (), t) ==> t == NumberType::ClShort(NumberTypeKind::Four),
        forall|t: NumberType| #[trigger] call_ensures(<[i16; 8] as NumberTypedT>::number_type, (), t) ==> t == NumberType::ClShort(NumberTypeKind::Eight),
        forall|t: NumberType| #[trigger] call_ensures(<ClShort8 as NumberTypedT>::number_type, (), t) ==> t == NumberType::ClShort(NumberTypeKind::Eight),
        forall|t: NumberType| #[trigger] call_ensures(<[i16; 16] as NumberTypedT>::number_type, (), t) ==> t == NumberType::ClShort(NumberTypeKind::Sixteen),
        forall|t: NumberType| #[trigger] call_ensures(<ClShort16 as NumberTypedT>::number_type, (), t) ==> t == NumberType::ClShort(NumberTypeKind::Sixteen),
        forall|t: NumberType| #[trigger] call_ensures(<[u16; 2] as NumberTypedT>::number_type, (), t) ==> t == NumberType::ClUshort(NumberTypeKind::Two),
        forall|t: NumberType| #[trigger] call_ensures(<ClUshort2 as NumberTypedT>::number_type, (), t) ==> t == NumberType::ClUshort(NumberTypeKind::Two),
        forall|t: NumberType| #[trigger] call_ensures(<[u16; 4] as NumberTypedT>::number_type, (), t) ==> t == NumberType::ClUshort(NumberTypeKind::Four),
        forall|t: NumberType| #[trigger] call_ensures(<ClUshort4 as NumberTypedT>::number_type, (), t) ==> t == NumberType::ClUshort(NumberTypeKind::Four),
        forall|t: NumberType| #[trigger] call_ensures(<[u16; 8] as NumberTypedT>::number_type, (), t) ==> t == NumberType::ClUshort(NumberTypeKind::Eight),
        forall|t: NumberType| #[trigger] call_ensures(<ClUshort8 as NumberTypedT>::number_type, (), t) ==> t == NumberType::ClUshort(NumberTypeKind::Eight),
        forall|t: NumberType| #[trigger] call_ensures(<[u16; 16] as NumberTypedT>::number_type, (), t) ==> t == NumberType::ClUshort(NumberTypeKind::Sixteen),
        forall|t: NumberType| #[trigger] call_ensures(<ClUshort16 as NumberTypedT>::number_type, (), t) ==> t == NumberType::ClUshort(NumberTypeKind::Sixteen),
        forall|t: NumberType| #[trigger] call_ensures(<[i32; 2] as NumberTypedT>::number_type, (), t) ==> t == NumberType::ClInt(NumberTypeKind::Two),
        forall|t: NumberType| #[trigger] call_ensures(<ClInt2 as NumberTypedT>::number_type, (), t) ==> t == NumberType::ClInt(NumberTypeKind::Two),
        forall|t: NumberType| #[trigger] call_ensures(<[i32; 4] as NumberTypedT>::number_type, (), t) ==> t == NumberType::ClInt(NumberTypeKind::Four),
        forall|t: NumberType| #[trigger] call_ensures(<ClInt4 as NumberTypedT>::number_type, (), t) ==> t == NumberType::ClInt(NumberTypeKind::Four),
        forall|t: NumberType| #[trigger] call_ensures(<[i32; 8] as NumberTypedT>::number_type, (), t) ==> t == NumberType::ClInt(NumberTypeKind::Eight),
        forall|t: NumberType| #[trigger] call_ensures(<ClInt8 as NumberTypedT>::number_type, (), t) ==> t == NumberType::ClInt(NumberTypeKind::Eight),
        forall|t: NumberType| #[trigger] call_ensures(<[i32; 16] as NumberTypedT>::number_type, (), t) ==> t == NumberType::ClInt(NumberTypeKind::Sixteen),
        forall|t: NumberType| #[trigger] call_ensures(<ClInt16 as NumberTypedT>::number_type, (), t) ==> t == NumberType::ClInt(NumberTypeKind::Sixteen),
        forall|t: NumberType| #[trigger] call_ensures(<[u32; 2] as NumberTypedT>::number_type, (), t) ==> t == NumberType::ClUint(NumberTypeKind::Two),
        forall|t: NumberType| #[trigger] call_ensures(<ClUint2 as NumberTypedT>::number_type, (), t) ==> t == NumberType::ClUint(NumberTypeKind::Two),
        forall|t: NumberType| #[trigger] call_ensures(<[u32; 4] as NumberTypedT>::number_type, (), t) ==> t == NumberType::ClUint(NumberTypeKind::Four),
        forall|t: NumberType| #[trigger] call_ensures(<ClUint4 as NumberTypedT>::number_type, (), t) ==> t == NumberType::ClUint(NumberTypeKind::Four),
        forall|t: NumberType| #[trigger] call_ensures(<[u32; 8] as NumberTypedT>::number_type, (), t) ==> t == NumberType::ClUint(NumberTypeKind::Eight),
        forall|t: NumberType| #[trigger] call_ensures(<ClUint8 as NumberTypedT>::number_type, (), t) ==> t == NumberType::ClUint(NumberTypeKind::Eight),
        forall|t: NumberType| #[trigger] call_ensures(<[u32; 16] as NumberTypedT>::number_type, (), t) ==> t == NumberType::ClUint(NumberTypeKind::Sixteen),
        forall|t: NumberType| #[trigger] call_ensures(<ClUint16 as NumberTypedT>::number_type, (), t) ==> t == NumberType::ClUint(NumberTypeKind::Sixteen),
        forall|t: NumberType| #[trigger] call_ensures(<[i64; 2] as NumberTypedT>::number_type, (), t) ==> t == NumberType::ClLong(NumberTypeKind::Two),
        forall|t: NumberType| #[trigger] call_ensures(<ClLong2 as NumberTypedT>::number_type, (), t) ==> t == NumberType::ClLong(NumberTypeKind::Two),
        forall|t: NumberType| #[trigger] call_ensures(<[i64; 4] as NumberTypedT>::number_type, (), t) ==> t == NumberType::ClLong(NumberTypeKind::Four),
        forall|t: NumberType| #[trigger] call_ensures(<ClLong4 as NumberTypedT>::number_type, (), t) ==> t == NumberType::ClLong(NumberTypeKind::Four),
        forall|t: NumberType| #[trigger] call_ensures(<[i64; 8] as NumberTypedT>::number_type, (), t) ==> t == NumberType::ClLong(NumberTypeKind::Eight),
        forall|t: NumberType| #[trigger] call_ensures(<ClLong8 as NumberTypedT>::number_type, (), t) ==> t == NumberType::ClLong(NumberTypeKind::Eight),
        forall|t: NumberType| #[trigger] call_ensures(<[i64; 16] as NumberTypedT>::number_type, (), t) ==> t == NumberType::ClLong(NumberTypeKind::Sixteen),
        forall|t: NumberType| #[trigger] call_ensures(<ClLong16 as NumberTypedT>::number_type, (), t) ==> t == NumberType::ClLong(NumberTypeKind::Sixteen),
        forall|t: NumberType| #[trigger] call_ensures(<[u64; 2] as NumberTypedT>::number_type, (), t) ==> t == NumberType::ClUlong(NumberTypeKind::Two),
        forall|t: NumberType| #[trigger] call_ensures(<ClUlong2 as NumberTypedT>::number_type, (), t) ==> t == NumberType::ClUlong(NumberTypeKind::Two),
        forall|t: NumberType| #[trigger] call_ensures(<[u64; 4] as NumberTypedT>::number_type, (), t) ==> t == NumberType::ClUlong(NumberTypeKind::Four),
        forall|t: NumberType| #[trigger] call_ensures(<ClUlong4 as NumberTypedT>::number_type, (), t) ==> t == NumberType::ClUlong(NumberTypeKind::Four),
        forall|t: NumberType| #[trigger] call_ensures(<[u64; 8] as NumberTypedT>::number_type, (), t) ==> t == NumberType::ClUlong(NumberTypeKind::Eight),
        forall|t: NumberType| #[trigger] call_ensures(<ClUlong8 as NumberTypedT>::number_type, (), t) ==> t == NumberType::ClUlong(NumberTypeKind::Eight),
        forall|t: NumberType| #[trigger] call_ensures(<[u64; 16] as NumberTypedT>::number_type, (), t) ==> t == NumberType::ClUlong(NumberTypeKind::Sixteen),
        forall|t: NumberType| #[trigger] call_ensures(<ClUlong16 as NumberTypedT>::number_type, (), t) ==> t == NumberType::ClUlong(NumberTypeKind::Sixteen),
{
}

} // verus!

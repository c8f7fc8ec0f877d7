use vstd::prelude::*;

verus! {

/// How many numbers of a primitive type an OpenCL number holds: one, or a vector of 2, 3,
/// 4, 8 or 16.
#[derive(Clone, Copy, Debug, PartialEq, Eq, Hash, Structural)]
pub enum NumberTypeKind {
    Primitive,
    Two,
    Three,
    Four,
    Eight,
    Sixteen,
}

impl NumberTypeKind {
    /// The factor by which the kind multiplies the size of its primitive type.
    pub open spec fn count_spec(self) -> nat {
        match self {
            NumberTypeKind::Primitive => 1,
            NumberTypeKind::Two => 2,
            NumberTypeKind::Three => 3,
            NumberTypeKind::Four => 4,
            NumberTypeKind::Eight => 8,
            NumberTypeKind::Sixteen => 16,
        }
    }

    fn count(&self) -> (n: usize)
        ensures
            n == self.count_spec(),
    {
        match self {
            NumberTypeKind::Primitive => 1,
            NumberTypeKind::Two => 2,
            NumberTypeKind::Three => 3,
            NumberTypeKind::Four => 4,
            NumberTypeKind::Eight => 8,
            NumberTypeKind::Sixteen => 16,
        }
    }
}

/// The OpenCL number types: a primitive type with its kind, or one of the types that only
/// exist as a single number.
#[derive(Clone, Copy, Debug, PartialEq, Eq, Hash, Structural)]
pub enum NumberType {
    ClChar(NumberTypeKind),
    ClUchar(NumberTypeKind),
    ClShort(NumberTypeKind),
    ClUshort(NumberTypeKind),
    ClInt(NumberTypeKind),
    ClUint(NumberTypeKind),
    ClLong(NumberTypeKind),
    ClUlong(NumberTypeKind),
    ClFloat(NumberTypeKind),
    ClHalf,
    ClBool,
    SizeT,
    ClDouble,
}

/// An error related to OpenCL number types.
#[derive(Debug, PartialEq, Eq, Clone)]
pub enum TypeError {
    /// The expected type, then the type that was found.
    TypeMismatch(NumberType, NumberType),
    /// A value that is not valid for its type.
    InvalidValue(NumberType, String),
}

/// The size in bytes of a `usize`; never zero.
fn size_of_usize() -> (size: usize)
    ensures
        size == vstd::layout::size_of::<usize>(),
        size > 0,
{
    proof {
        broadcast use vstd::layout::layout_of_primitives;

        assert(vstd::layout::size_of::<usize>() * 8 == usize::BITS);
    }
    core::mem::size_of::<usize>()
}

/// A mismatch of the two types stops the program.
fn _match_or_panic(t1: NumberType, t2: NumberType)
    requires
        t1 == t2,
{
}

impl NumberType {
    /// The size in bytes of a number of this type.
    pub open spec fn size_spec(self) -> nat {
        match self {
            NumberType::ClChar(kind) => 1 * kind.count_spec(),
            NumberType::ClUchar(kind) => 1 * kind.count_spec(),
            NumberType::ClShort(kind) => 2 * kind.count_spec(),
            NumberType::ClUshort(kind) => 2 * kind.count_spec(),
            NumberType::ClInt(kind) => 4 * kind.count_spec(),
            NumberType::ClUint(kind) => 4 * kind.count_spec(),
            NumberType::ClLong(kind) => 8 * kind.count_spec(),
            NumberType::ClUlong(kind) => 8 * kind.count_spec(),
            NumberType::ClFloat(kind) => 4 * kind.count_spec(),
            NumberType::ClHalf => 2,
            NumberType::ClBool => 4,
            NumberType::SizeT => vstd::layout::size_of::<usize>(),
            NumberType::ClDouble => 8,
        }
    }

    /// The size in bytes of a number of this type; never zero.
    pub fn size_of_t(&self) -> (size: usize)
        ensures
            size == self.size_spec(),
            size > 0,
    {
        match self {
            NumberType::ClChar(kind) | NumberType::ClUchar(kind) => kind.count(),
            NumberType::ClShort(kind) | NumberType::ClUshort(kind) => {
                let n = kind.count();
                2 * n
            },
            NumberType::ClInt(kind) | NumberType::ClUint(kind) | NumberType::ClFloat(kind) => {
                let n = kind.count();
                4 * n
            },
            NumberType::ClLong(kind) | NumberType::ClUlong(kind) => {
                let n = kind.count();
                8 * n
            },
            NumberType::ClHalf => 2,
            NumberType::ClBool => 4,
            NumberType::SizeT => size_of_usize(),
            NumberType::ClDouble => 8,
        }
    }

    /// Whether the two number types are the same.
    pub fn matches(&self, other: NumberType) -> (r: bool)
        ensures
            r == (*self == other),
    {
        *self == other
    }

    /// Stops the program unless the two number types are the same.
    pub fn match_or_panic(&self, other: NumberType)
        requires
            *self == other,
    {
        _match_or_panic(*self, other)
    }

    /// Succeeds when the two number types are the same; a `TypeMismatch` naming both
    /// otherwise.
    pub fn type_check(&self, other: NumberType) -> (r: Result<(), TypeError>)
        ensures
            *self == other ==> r is Ok,
            *self != other ==> r == Err::<(), TypeError>(TypeError::TypeMismatch(*self, other)),
    {
        if self.matches(other) {
            Ok(())
        } else {
            Err(TypeError::TypeMismatch(*self, other))
        }
    }
}

/// A type whose values are all numbers of one OpenCL number type.
pub trait NumberTypedT {
    /// The number type of the values of the type.
    spec fn number_type_spec() -> NumberType;

    fn number_type() -> (t: NumberType)
        ensures
            t == Self::number_type_spec(),
    ;

    fn matches(other: NumberType) -> (r: bool)
        ensures
            r == (Self::number_type_spec() == other),
    {
        Self::number_type() == other
    }

    fn match_or_panic(other: NumberType)
        requires
            Self::number_type_spec() == other,
    {
        _match_or_panic(Self::number_type(), other)
    }
}

/// A value that knows the OpenCL number type of the numbers it holds.
pub trait NumberTyped {
    /// The number type of the numbers that the value holds.
    spec fn number_type_spec(&self) -> NumberType;

    fn number_type(&self) -> (t: NumberType)
        ensures
            t == self.number_type_spec(),
    ;

    fn matches(&self, other: NumberType) -> (r: bool)
        ensures
            r == (self.number_type_spec() == other),
    {
        self.number_type() == other
    }

    fn match_or_panic(&self, other: NumberType)
        requires
            self.number_type_spec() == other,
    {
        _match_or_panic(self.number_type(), other)
    }
}

/// A vector of numbers of one number type has that number type.
impl<T: NumberTypedT> NumberTyped for Vec<T> {
    open spec fn number_type_spec(&self) -> NumberType {
        T::number_type_spec()
    }

    fn number_type(&self) -> (t: NumberType) {
        T::number_type()
    }
}

/// A vector of numbers has the number type of its items.
pub proof fn lemma_vec_has_number_type_of_its_items<T: NumberTypedT>(
    v: Vec<T>,
    of_vec: NumberType,
    of_item: NumberType,
)
    requires
        call_ensures(<Vec<T> as NumberTyped>::number_type, (&v,), of_vec),
        call_ensures(T::number_type, (), of_item),
    ensures
        of_vec == of_item,
{
}

/// A type check succeeds exactly when the two types match, and otherwise names the
/// expected type and the type that was found.
pub proof fn lemma_type_check_agrees_with_matches(
    expected: NumberType,
    found: NumberType,
    m: bool,
    r: Result<(), TypeError>,
)
    requires
        call_ensures(NumberType::matches, (&expected, found), m),
        call_ensures(NumberType::type_check, (&expected, found), r),
    ensures
        m <==> r is Ok,
        !m ==> r == Err::<(), TypeError>(TypeError::TypeMismatch(expected, found)),
{
}

/// The size of a number type is the size of one number of its primitive type (1 byte for
/// `char`, 2 for `short` and `half`, 4 for `int`, `float` and `bool`, 8 for `long` and
/// `double`, a `usize` for `size_t`) times the number of lanes its kind holds: 1, 2, 3,
/// 4, 8 or 16.
pub proof fn lemma_number_type_sizes()
    ensures
        forall|t: NumberType, n: usize|
            #[trigger] call_ensures(NumberType::size_of_t, (&t,), n) ==> n == match t {
                NumberType::ClChar(k) | NumberType::ClUchar(k) => 1 * match k {
                    NumberTypeKind::Primitive => 1int,
                    NumberTypeKind::Two => 2int,
                    NumberTypeKind::Three => 3int,
                    NumberTypeKind::Four => 4int,
                    NumberTypeKind::Eight => 8int,
                    NumberTypeKind::Sixteen => 16int,
                },
                NumberType::ClShort(k) | NumberType::ClUshort(k) => 2 * match k {
                    NumberTypeKind::Primitive => 1int,
                    NumberTypeKind::Two => 2int,
                    NumberTypeKind::Three => 3int,
                    NumberTypeKind::Four => 4int,
                    NumberTypeKind::Eight => 8int,
                    NumberTypeKind::Sixteen => 16int,
                },
                NumberType::ClInt(k) | NumberType::ClUint(k) | NumberType::ClFloat(k) => 4 * match k {
                    NumberTypeKind::Primitive => 1int,
                    NumberTypeKind::Two => 2int,
                    NumberTypeKind::Three => 3int,
                    NumberTypeKind::Four => 4int,
                    NumberTypeKind::Eight => 8int,
                    NumberTypeKind::Sixteen => 16int,
                },
                NumberType::ClLong(k) | NumberType::ClUlong(k) => 8 * match k {
                    NumberTypeKind::Primitive => 1int,
                    NumberTypeKind::Two => 2int,
                    NumberTypeKind::Three => 3int,
                    NumberTypeKind::Four => 4int,
                    NumberTypeKind::Eight => 8int,
                    NumberTypeKind::Sixteen => 16int,
                },
                NumberType::ClHalf => 2int,
                NumberType::ClBool => 4int,
                NumberType::SizeT => vstd::layout::size_of::<usize>() as int,
                NumberType::ClDouble => 8int,
            },
{
}

} // verus!

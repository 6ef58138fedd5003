//! What every unit of measure offers, and the plain numbers that scale one.

use crate::integer::integer_from_i128;
use crate::integer::Integer;
use crate::value::ratio_from_integer;
use crate::value::ExactValue;
use vstd::prelude::*;

verus! {

/// A quantity: an exact magnitude, counted in one unit of measure.
pub trait Unit: Sized {
    /// The magnitude held, counted in this unit and not in its base unit.
    spec fn magnitude(&self) -> real;

    /// The unit's name written out, such as `kilometer`.
    spec fn longform_text() -> Seq<char>;

    /// The unit's symbol, such as `km`.
    spec fn shortform_text() -> Seq<char>;

    /// The quantity of magnitude `val`.
    fn new(val: ExactValue) -> (unit: Self)
        ensures
            unit.magnitude() == val@,
    ;

    /// The magnitude, taken out of the quantity.
    fn value(self) -> (val: ExactValue)
        ensures
            val@ == self.magnitude(),
    ;

    /// The magnitude, read in place.
    fn value_ref(&self) -> (val: &ExactValue)
        ensures
            val@ == self.magnitude(),
    ;

    /// The unit's name written out.
    fn longform() -> (text: String)
        ensures
            text@ == Self::longform_text(),
    ;

    /// The unit's symbol.
    fn shortform() -> (text: String)
        ensures
            text@ == Self::shortform_text(),
    ;
}

/// A unit that measures in multiples of the base unit `B`.
pub trait IntoBase<B: Unit>: Unit {
    /// How many base units one of this unit is.
    spec fn base_factor() -> real;

    /// A unit is never worth zero base units.
    proof fn base_factor_is_not_zero()
        ensures
            Self::base_factor() != 0real,
    ;

    /// The same quantity counted in base units.
    fn base(self) -> (converted: B)
        ensures
            converted.magnitude() == self.magnitude() * Self::base_factor(),
    ;

    /// The magnitude of the same quantity in base units, read in place.
    fn base_value(&self) -> (val: ExactValue)
        ensures
            val@ == self.magnitude() * Self::base_factor(),
    ;
}

/// A plain number that a quantity can be made from, multiplied with or
/// divided by.
pub trait Scalar: Sized {
    /// The number.
    spec fn number(self) -> real;

    /// The number as an exact value.
    fn into_exact(self) -> (val: ExactValue)
        ensures
            val@ == self.number(),
    ;
}

impl Scalar for ExactValue {
    open spec fn number(self) -> real {
        self@
    }

    fn into_exact(self) -> (val: ExactValue) {
        self
    }
}

impl Scalar for Integer {
    open spec fn number(self) -> real {
        self@ as real
    }

    fn into_exact(self) -> (val: ExactValue) {
        ratio_from_integer(&self)
    }
}

impl Scalar for i8 {
    open spec fn number(self) -> real {
        self as int as real
    }

    fn into_exact(self) -> (val: ExactValue) {
        ratio_from_integer(&integer_from_i128(self as i128))
    }
}

impl Scalar for i16 {
    open spec fn number(self) -> real {
        self as int as real
    }

    fn into_exact(self) -> (val: ExactValue) {
        ratio_from_integer(&integer_from_i128(self as i128))
    }
}

impl Scalar for i32 {
    open spec fn number(self) -> real {
        self as int as real
    }

    fn into_exact(self) -> (val: ExactValue) {
        ratio_from_integer(&integer_from_i128(self as i128))
    }
}

impl Scalar for i64 {
    open spec fn number(self) -> real {
        self as int as real
    }

    fn into_exact(self) -> (val: ExactValue) {
        ratio_from_integer(&integer_from_i128(self as i128))
    }
}

impl Scalar for isize {
    open spec fn number(self) -> real {
        self as int as real
    }

    fn into_exact(self) -> (val: ExactValue) {
        ratio_from_integer(&integer_from_i128(self as i128))
    }
}

impl Scalar for u8 {
    open spec fn number(self) -> real {
        self as int as real
    }

    fn into_exact(self) -> (val: ExactValue) {
        ratio_from_integer(&integer_from_i128(self as i128))
    }
}

impl Scalar for u16 {
    open spec fn number(self) -> real {
        self as int as real
    }

    fn into_exact(self) -> (val: ExactValue) {
        ratio_from_integer(&integer_from_i128(self as i128))
    }
}

impl Scalar for u32 {
    open spec fn number(self) -> real {
        self as int as real
    }

    fn into_exact(self) -> (val: ExactValue) {
        ratio_from_integer(&integer_from_i128(self as i128))
    }
}

impl Scalar for u64 {
    open spec fn number(self) -> real {
        self as int as real
    }

    fn into_exact(self) -> (val: ExactValue) {
        ratio_from_integer(&integer_from_i128(self as i128))
    }
}

impl Scalar for usize {
    open spec fn number(self) -> real {
        self as int as real
    }

    fn into_exact(self) -> (val: ExactValue) {
        ratio_from_integer(&integer_from_i128(self as i128))
    }
}

} // verus!

//! The base units: quantities counted without any scale.

mod kinds;
mod ops;

use crate::unit::IntoBase;
use crate::unit::Scalar;
use crate::unit::Unit;
use crate::value::ratio_div;
use crate::value::DivisionByZero;
use crate::value::ExactValue;
use std::marker::PhantomData;
use vstd::prelude::*;
use vstd::string::StringExecFns;

pub use crate::base::kinds::Ampere;
pub use crate::base::kinds::AmpereKind;
pub use crate::base::kinds::Candela;
pub use crate::base::kinds::CandelaKind;
pub use crate::base::kinds::Gram;
pub use crate::base::kinds::GramKind;
pub use crate::base::kinds::Kelvin;
pub use crate::base::kinds::KelvinKind;
pub use crate::base::kinds::Meter;
pub use crate::base::kinds::MeterKind;
pub use crate::base::kinds::Mole;
pub use crate::base::kinds::MoleKind;
pub use crate::base::kinds::Second;
pub use crate::base::kinds::SecondKind;

verus! {

/// A unit that is the reference of its dimension: one of it is worth one.
pub trait Base: Unit + IntoBase<Self> {
    /// A base unit is its own base.
    proof fn base_factor_is_one()
        ensures
            <Self as IntoBase<Self>>::base_factor() == 1real,
    ;
}

/// What tells one base unit from another: its name and its symbol.
pub trait BaseKind {
    /// The name written out, such as `meter`.
    spec fn longform_text() -> Seq<char>;

    /// The symbol, such as `m`.
    spec fn shortform_text() -> Seq<char>;

    /// The name written out.
    fn longform() -> (text: &'static str)
        ensures
            text@ == Self::longform_text(),
    ;

    /// The symbol.
    fn shortform() -> (text: &'static str)
        ensures
            text@ == Self::shortform_text(),
    ;
}

/// A quantity counted in the base unit of kind `K`.
#[derive(Debug)]
pub struct Quantity<K: BaseKind> {
    value: ExactValue,
    kind: PhantomData<K>,
}

impl<K: BaseKind> Unit for Quantity<K> {
    closed spec fn magnitude(&self) -> real {
        self.value@
    }

    open spec fn longform_text() -> Seq<char> {
        K::longform_text()
    }

    open spec fn shortform_text() -> Seq<char> {
        K::shortform_text()
    }

    fn new(val: ExactValue) -> (unit: Self) {
        Quantity { value: val, kind: PhantomData }
    }

    fn value(self) -> (val: ExactValue) {
        self.value
    }

    fn value_ref(&self) -> (val: &ExactValue) {
        &self.value
    }

    fn longform() -> (text: String) {
        String::from_str(K::longform())
    }

    fn shortform() -> (text: String) {
        String::from_str(K::shortform())
    }
}

impl<K: BaseKind> IntoBase<Quantity<K>> for Quantity<K> {
    open spec fn base_factor() -> real {
        1real
    }

    proof fn base_factor_is_not_zero() {
    }

    fn base(self) -> (converted: Quantity<K>) {
        self
    }

    fn base_value(&self) -> (val: ExactValue) {
        self.value.clone()
    }
}

impl<K: BaseKind> Base for Quantity<K> {
    proof fn base_factor_is_one() {
    }
}

impl<K: BaseKind> Clone for Quantity<K> {
    fn clone(&self) -> (copy: Self)
        ensures
            copy.magnitude() == self.magnitude(),
    {
        Quantity { value: self.value.clone(), kind: PhantomData }
    }
}

impl<K: BaseKind> Quantity<K> {
    /// The quantity divided by `rhs`, or the error where `rhs` is zero.
    pub fn checked_div<T: Scalar>(self, rhs: T) -> (quotient: Result<Quantity<K>, DivisionByZero>)
        ensures
            rhs.number() == 0real <==> quotient is Err,
            quotient matches Ok(q) ==> q.magnitude() == self.magnitude() / rhs.number(),
    {
        let by = rhs.into_exact();
        if by.is_zero() {
            Err(DivisionByZero)
        } else {
            Ok(Quantity { value: ratio_div(&self.value, &by), kind: PhantomData })
        }
    }
}

} // verus!

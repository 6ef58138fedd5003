//! The operators of a prefixed quantity. Each states its result in
//! `ensures`, as a number: the `*_spec` functions that vstd asks for would
//! have to give the result byte for byte, so they are left without a claim.

use crate::base::Base;
use crate::base::BaseKind;
use crate::base::Quantity;
use crate::prefix::generate_prefix_factor;
use crate::prefix::power_of_ten_is_positive;
use crate::prefix::Scale;
use crate::prefix::Scaled;
use crate::unit::IntoBase;
use crate::unit::Scalar;
use crate::unit::Unit;
use crate::value::ratio_add;
use crate::value::ratio_div;
use crate::value::ratio_mul;
use crate::value::ratio_sub;
use std::marker::PhantomData;
use vstd::prelude::*;
use vstd::std_specs::cmp::PartialEqSpecImpl;
use vstd::std_specs::convert::FromSpecImpl;
use vstd::std_specs::ops::AddSpecImpl;
use vstd::std_specs::ops::DivSpecImpl;
use vstd::std_specs::ops::MulSpecImpl;
use vstd::std_specs::ops::SubSpecImpl;

verus! {

impl<S: Scale, B: Base, T: Scalar> FromSpecImpl<T> for Scaled<S, B> {
    open spec fn obeys_from_spec() -> bool {
        false
    }

    open spec fn from_spec(v: T) -> Self {
        arbitrary()
    }
}

impl<S: Scale, B: Base, T: Scalar> From<T> for Scaled<S, B> {
    /// The quantity of as many of this unit as the number says: the number is
    /// kept as it is, and not taken for a count of base units.
    fn from(v: T) -> (unit: Self)
        ensures
            unit.magnitude() == v.number(),
    {
        Scaled { value: v.into_exact(), scale: PhantomData, base: PhantomData }
    }
}

impl<S: Scale, K: BaseKind> FromSpecImpl<Quantity<K>> for Scaled<S, Quantity<K>> {
    open spec fn obeys_from_spec() -> bool {
        false
    }

    open spec fn from_spec(v: Quantity<K>) -> Self {
        arbitrary()
    }
}

impl<S: Scale, K: BaseKind> From<Quantity<K>> for Scaled<S, Quantity<K>> {
    /// The base quantity counted in this unit: its magnitude divided by the
    /// factor.
    fn from(v: Quantity<K>) -> (unit: Self)
        ensures
            unit.magnitude() == v.magnitude() / Self::base_factor(),
    {
        let factor = generate_prefix_factor(S::exponent());
        proof {
            power_of_ten_is_positive(S::exponent_spec());
        }
        let base = v.value();
        Scaled { value: ratio_div(&base, &factor), scale: PhantomData, base: PhantomData }
    }
}

impl<S: Scale, K: BaseKind> FromSpecImpl<Scaled<S, Quantity<K>>> for Quantity<K> {
    open spec fn obeys_from_spec() -> bool {
        false
    }

    open spec fn from_spec(v: Scaled<S, Quantity<K>>) -> Self {
        arbitrary()
    }
}

impl<S: Scale, K: BaseKind> From<Scaled<S, Quantity<K>>> for Quantity<K> {
    /// The prefixed quantity counted in base units: its magnitude multiplied
    /// by the factor.
    fn from(v: Scaled<S, Quantity<K>>) -> (unit: Self)
        ensures
            unit.magnitude() == v.magnitude() * Scaled::<S, Quantity<K>>::base_factor(),
    {
        v.base()
    }
}

impl<S: Scale, B: Base, P: IntoBase<B>> AddSpecImpl<P> for Scaled<S, B> {
    open spec fn obeys_add_spec() -> bool {
        false
    }

    open spec fn add_req(self, rhs: P) -> bool {
        true
    }

    open spec fn add_spec(self, rhs: P) -> Scaled<S, B> {
        arbitrary()
    }
}

impl<S: Scale, B: Base, P: IntoBase<B>> std::ops::Add<P> for Scaled<S, B> {
    type Output = Scaled<S, B>;

    /// The sum, counted in the unit of the left operand: both operands are
    /// taken to base units, added there, and the sum is divided by this
    /// unit's factor.
    fn add(self, rhs: P) -> (sum: Scaled<S, B>)
        ensures
            sum.magnitude() == (self.magnitude() * Self::base_factor() + rhs.magnitude()
                * P::base_factor()) / Self::base_factor(),
    {
        let factor = generate_prefix_factor(S::exponent());
        proof {
            power_of_ten_is_positive(S::exponent_spec());
        }
        let mine = ratio_mul(&self.value, &factor);
        let theirs = rhs.base_value();
        let total = ratio_add(&mine, &theirs);
        Scaled { value: ratio_div(&total, &factor), scale: PhantomData, base: PhantomData }
    }
}

impl<S: Scale, B: Base, P: IntoBase<B>> SubSpecImpl<P> for Scaled<S, B> {
    open spec fn obeys_sub_spec() -> bool {
        false
    }

    open spec fn sub_req(self, rhs: P) -> bool {
        true
    }

    open spec fn sub_spec(self, rhs: P) -> Scaled<S, B> {
        arbitrary()
    }
}

impl<S: Scale, B: Base, P: IntoBase<B>> std::ops::Sub<P> for Scaled<S, B> {
    type Output = Scaled<S, B>;

    /// The difference, counted in the unit of the left operand: both operands
    /// are taken to base units, subtracted there, and the difference is
    /// divided by this unit's factor.
    fn sub(self, rhs: P) -> (difference: Scaled<S, B>)
        ensures
            difference.magnitude() == (self.magnitude() * Self::base_factor() - rhs.magnitude()
                * P::base_factor()) / Self::base_factor(),
    {
        let factor = generate_prefix_factor(S::exponent());
        proof {
            power_of_ten_is_positive(S::exponent_spec());
        }
        let mine = ratio_mul(&self.value, &factor);
        let theirs = rhs.base_value();
        let rest = ratio_sub(&mine, &theirs);
        Scaled { value: ratio_div(&rest, &factor), scale: PhantomData, base: PhantomData }
    }
}

impl<S: Scale, B: Base, T: Scalar> MulSpecImpl<T> for Scaled<S, B> {
    open spec fn obeys_mul_spec() -> bool {
        false
    }

    open spec fn mul_req(self, rhs: T) -> bool {
        true
    }

    open spec fn mul_spec(self, rhs: T) -> Scaled<S, B> {
        arbitrary()
    }
}

impl<S: Scale, B: Base, T: Scalar> std::ops::Mul<T> for Scaled<S, B> {
    type Output = Scaled<S, B>;

    /// The quantity `rhs` times as large, in the same unit.
    fn mul(self, rhs: T) -> (product: Scaled<S, B>)
        ensures
            product.magnitude() == self.magnitude() * rhs.number(),
    {
        let times = rhs.into_exact();
        Scaled { value: ratio_mul(&self.value, &times), scale: PhantomData, base: PhantomData }
    }
}

impl<S: Scale, B: Base, T: Scalar> DivSpecImpl<T> for Scaled<S, B> {
    open spec fn obeys_div_spec() -> bool {
        false
    }

    open spec fn div_req(self, rhs: T) -> bool {
        rhs.number() != 0real
    }

    open spec fn div_spec(self, rhs: T) -> Scaled<S, B> {
        arbitrary()
    }
}

impl<S: Scale, B: Base, T: Scalar> std::ops::Div<T> for Scaled<S, B> {
    type Output = Scaled<S, B>;

    /// The quantity divided by `rhs`, which is not zero, in the same unit.
    fn div(self, rhs: T) -> (quotient: Scaled<S, B>)
        ensures
            quotient.magnitude() == self.magnitude() / rhs.number(),
    {
        let by = rhs.into_exact();
        Scaled { value: ratio_div(&self.value, &by), scale: PhantomData, base: PhantomData }
    }
}

impl<S: Scale, B: Base> MulSpecImpl<Scaled<S, B>> for Scaled<S, B> {
    open spec fn obeys_mul_spec() -> bool {
        false
    }

    open spec fn mul_req(self, rhs: Scaled<S, B>) -> bool {
        true
    }

    open spec fn mul_spec(self, rhs: Scaled<S, B>) -> Scaled<S, B> {
        arbitrary()
    }
}

impl<S: Scale, B: Base> std::ops::Mul<Scaled<S, B>> for Scaled<S, B> {
    type Output = Scaled<S, B>;

    /// The product of the two magnitudes as they are held, kept in the same
    /// unit.
    fn mul(self, rhs: Scaled<S, B>) -> (product: Scaled<S, B>)
        ensures
            product.magnitude() == self.magnitude() * rhs.magnitude(),
    {
        Scaled { value: ratio_mul(&self.value, &rhs.value), scale: PhantomData, base: PhantomData }
    }
}

impl<S: Scale, B: Base> DivSpecImpl<Scaled<S, B>> for Scaled<S, B> {
    open spec fn obeys_div_spec() -> bool {
        false
    }

    open spec fn div_req(self, rhs: Scaled<S, B>) -> bool {
        rhs.magnitude() != 0real
    }

    open spec fn div_spec(self, rhs: Scaled<S, B>) -> Scaled<S, B> {
        arbitrary()
    }
}

impl<S: Scale, B: Base> std::ops::Div<Scaled<S, B>> for Scaled<S, B> {
    type Output = Scaled<S, B>;

    /// The quotient of the two magnitudes as they are held, kept in the same
    /// unit; `rhs` is not zero.
    fn div(self, rhs: Scaled<S, B>) -> (quotient: Scaled<S, B>)
        ensures
            quotient.magnitude() == self.magnitude() / rhs.magnitude(),
    {
        Scaled { value: ratio_div(&self.value, &rhs.value), scale: PhantomData, base: PhantomData }
    }
}

impl<S: Scale, B: Base, P: IntoBase<B>> PartialEqSpecImpl<P> for Scaled<S, B> {
    open spec fn obeys_eq_spec() -> bool {
        true
    }

    open spec fn eq_spec(&self, other: &P) -> bool {
        self.magnitude() * Self::base_factor() == other.magnitude() * P::base_factor()
    }
}

impl<S: Scale, B: Base, P: IntoBase<B>> PartialEq<P> for Scaled<S, B> {
    /// Two quantities are equal when they are as many base units, whatever
    /// unit each is counted in.
    fn eq(&self, other: &P) -> (same: bool) {
        let mine = self.base_value();
        let theirs = other.base_value();
        mine == theirs
    }
}

impl<S: Scale, B: Base> Eq for Scaled<S, B> {}

} // verus!

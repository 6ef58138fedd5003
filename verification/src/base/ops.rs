//! The operators of a base quantity. Each states its result in `ensures`,
//! as a number: the `*_spec` functions that vstd asks for would have to give
//! the result byte for byte, so they are left without a claim.

use crate::base::BaseKind;
use crate::base::Quantity;
use crate::unit::IntoBase;
use crate::unit::Scalar;
use crate::unit::Unit;
use crate::value::ratio_add;
use crate::value::ratio_div;
use crate::value::ratio_mul;
use crate::value::ratio_sub;
use std::marker::PhantomData;
use vstd::prelude::*;
use vstd::std_specs::cmp::PartialEqSpecImpl;
use vstd::std_specs::convert::FromSpecImpl;
use vstd::std_specs::ops::AddSpecImpl;
use vstd::std_specs::ops::DivSpecImpl;
use vstd::std_specs::ops::MulSpecImpl;
use vstd::std_specs::ops::SubSpecImpl;

verus! {

impl<K: BaseKind, T: Scalar> FromSpecImpl<T> for Quantity<K> {
    open spec fn obeys_from_spec() -> bool {
        false
    }

    open spec fn from_spec(v: T) -> Self {
        arbitrary()
    }
}

impl<K: BaseKind, T: Scalar> From<T> for Quantity<K> {
    /// The quantity of as many base units as the number says.
    fn from(v: T) -> (unit: Self)
        ensures
            unit.magnitude() == v.number(),
    {
        Quantity { value: v.into_exact(), kind: PhantomData }
    }
}

impl<K: BaseKind, P: IntoBase<Quantity<K>>> AddSpecImpl<P> for Quantity<K> {
    open spec fn obeys_add_spec() -> bool {
        false
    }

    open spec fn add_req(self, rhs: P) -> bool {
        true
    }

    open spec fn add_spec(self, rhs: P) -> Quantity<K> {
        arbitrary()
    }
}

impl<K: BaseKind, P: IntoBase<Quantity<K>>> std::ops::Add<P> for Quantity<K> {
    type Output = Quantity<K>;

    /// The sum in base units, whatever unit `rhs` is counted in.
    fn add(self, rhs: P) -> (sum: Quantity<K>)
        ensures
            sum.magnitude() == self.magnitude() + rhs.magnitude() * P::base_factor(),
    {
        let other = rhs.base_value();
        Quantity { value: ratio_add(&self.value, &other), kind: PhantomData }
    }
}

impl<K: BaseKind, P: IntoBase<Quantity<K>>> SubSpecImpl<P> for Quantity<K> {
    open spec fn obeys_sub_spec() -> bool {
        false
    }

    open spec fn sub_req(self, rhs: P) -> bool {
        true
    }

    open spec fn sub_spec(self, rhs: P) -> Quantity<K> {
        arbitrary()
    }
}

impl<K: BaseKind, P: IntoBase<Quantity<K>>> std::ops::Sub<P> for Quantity<K> {
    type Output = Quantity<K>;

    /// The difference in base units, whatever unit `rhs` is counted in.
    fn sub(self, rhs: P) -> (difference: Quantity<K>)
        ensures
            difference.magnitude() == self.magnitude() - rhs.magnitude() * P::base_factor(),
    {
        let other = rhs.base_value();
        Quantity { value: ratio_sub(&self.value, &other), kind: PhantomData }
    }
}

impl<K: BaseKind, T: Scalar> MulSpecImpl<T> for Quantity<K> {
    open spec fn obeys_mul_spec() -> bool {
        false
    }

    open spec fn mul_req(self, rhs: T) -> bool {
        true
    }

    open spec fn mul_spec(self, rhs: T) -> Quantity<K> {
        arbitrary()
    }
}

impl<K: BaseKind, T: Scalar> std::ops::Mul<T> for Quantity<K> {
    type Output = Quantity<K>;

    /// The quantity `rhs` times as large.
    fn mul(self, rhs: T) -> (product: Quantity<K>)
        ensures
            product.magnitude() == self.magnitude() * rhs.number(),
    {
        let times = rhs.into_exact();
        Quantity { value: ratio_mul(&self.value, &times), kind: PhantomData }
    }
}

impl<K: BaseKind, T: Scalar> DivSpecImpl<T> for Quantity<K> {
    open spec fn obeys_div_spec() -> bool {
        false
    }

    open spec fn div_req(self, rhs: T) -> bool {
        rhs.number() != 0real
    }

    open spec fn div_spec(self, rhs: T) -> Quantity<K> {
        arbitrary()
    }
}

impl<K: BaseKind, T: Scalar> std::ops::Div<T> for Quantity<K> {
    type Output = Quantity<K>;

    /// The quantity divided by `rhs`, which is not zero.
    fn div(self, rhs: T) -> (quotient: Quantity<K>)
        ensures
            quotient.magnitude() == self.magnitude() / rhs.number(),
    {
        let by = rhs.into_exact();
        Quantity { value: ratio_div(&self.value, &by), kind: PhantomData }
    }
}

impl<K: BaseKind> MulSpecImpl<Quantity<K>> for Quantity<K> {
    open spec fn obeys_mul_spec() -> bool {
        false
    }

    open spec fn mul_req(self, rhs: Quantity<K>) -> bool {
        true
    }

    open spec fn mul_spec(self, rhs: Quantity<K>) -> Quantity<K> {
        arbitrary()
    }
}

impl<K: BaseKind> std::ops::Mul<Quantity<K>> for Quantity<K> {
    type Output = Quantity<K>;

    /// The product of the two magnitudes, kept in the same unit.
    fn mul(self, rhs: Quantity<K>) -> (product: Quantity<K>)
        ensures
            product.magnitude() == self.magnitude() * rhs.magnitude(),
    {
        Quantity { value: ratio_mul(&self.value, &rhs.value), kind: PhantomData }
    }
}

impl<K: BaseKind> DivSpecImpl<Quantity<K>> for Quantity<K> {
    open spec fn obeys_div_spec() -> bool {
        false
    }

    open spec fn div_req(self, rhs: Quantity<K>) -> bool {
        rhs.magnitude() != 0real
    }

    open spec fn div_spec(self, rhs: Quantity<K>) -> Quantity<K> {
        arbitrary()
    }
}

impl<K: BaseKind> std::ops::Div<Quantity<K>> for Quantity<K> {
    type Output = Quantity<K>;

    /// The quotient of the two magnitudes, kept in the same unit; `rhs` is not
    /// zero.
    fn div(self, rhs: Quantity<K>) -> (quotient: Quantity<K>)
        ensures
            quotient.magnitude() == self.magnitude() / rhs.magnitude(),
    {
        Quantity { value: ratio_div(&self.value, &rhs.value), kind: PhantomData }
    }
}

impl<K: BaseKind, P: IntoBase<Quantity<K>>> PartialEqSpecImpl<P> for Quantity<K> {
    open spec fn obeys_eq_spec() -> bool {
        true
    }

    open spec fn eq_spec(&self, other: &P) -> bool {
        self.magnitude() == other.magnitude() * P::base_factor()
    }
}

impl<K: BaseKind, P: IntoBase<Quantity<K>>> PartialEq<P> for Quantity<K> {
    /// Two quantities are equal when they are as many base units, whatever
    /// unit `other` is counted in.
    fn eq(&self, other: &P) -> (same: bool) {
        let theirs = other.base_value();
        self.value == theirs
    }
}

impl<K: BaseKind> Eq for Quantity<K> {}

} // verus!

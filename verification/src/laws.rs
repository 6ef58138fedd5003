//! What holds of quantities at every scale.

use crate::base::Base;
use crate::base::BaseKind;
use crate::base::Quantity;
use crate::prefix::power_of_ten;
use crate::prefix::power_of_ten_is_positive;
use crate::prefix::Scale;
use crate::prefix::Scaled;
use crate::unit::IntoBase;
use crate::unit::Unit;
use vstd::arithmetic::power::lemma_pow_positive;
use vstd::arithmetic::power::pow;
use vstd::prelude::*;
use vstd::std_specs::cmp::PartialEqSpec;

verus! {

/// A base quantity counted in a prefix and taken back to the base is the
/// quantity it was: where `prefixed` is `base` divided by the factor and
/// `back` is `prefixed` multiplied by it, `back` equals `base`.
pub proof fn round_trip_is_exact<S: Scale, K: BaseKind>(
    base: Quantity<K>,
    prefixed: Scaled<S, Quantity<K>>,
    back: Quantity<K>,
)
    requires
        prefixed.magnitude() == base.magnitude() / Scaled::<S, Quantity<K>>::base_factor(),
        back.magnitude() == prefixed.magnitude() * Scaled::<S, Quantity<K>>::base_factor(),
    ensures
        back.magnitude() == base.magnitude(),
        back.eq_spec(&base),
{
    let factor = Scaled::<S, Quantity<K>>::base_factor();
    let b = base.magnitude();
    power_of_ten_is_positive(S::exponent_spec());
    assert((b / factor) * factor == b) by (nonlinear_arith)
        requires
            factor > 0real,
    ;
}

/// Every quantity equals itself, and so equals its copy, which holds the
/// same magnitude.
pub proof fn equality_is_reflexive<S: Scale, B: Base>(unit: Scaled<S, B>, copy: Scaled<S, B>)
    requires
        copy.magnitude() == unit.magnitude(),
    ensures
        unit.eq_spec(&unit),
        unit.eq_spec(&copy),
{
}

/// Every base quantity equals itself, and so equals its copy.
pub proof fn base_equality_is_reflexive<K: BaseKind>(unit: Quantity<K>, copy: Quantity<K>)
    requires
        copy.magnitude() == unit.magnitude(),
    ensures
        unit.eq_spec(&unit),
        unit.eq_spec(&copy),
{
}

/// Equality does not depend on the side that a quantity stands on.
pub proof fn equality_is_symmetric<S: Scale, T: Scale, B: Base>(
    left: Scaled<S, B>,
    right: Scaled<T, B>,
)
    ensures
        left.eq_spec(&right) == right.eq_spec(&left),
{
}

/// A base quantity equals a prefixed one where the prefixed one equals it.
pub proof fn equality_with_base_is_symmetric<S: Scale, K: BaseKind>(
    base: Quantity<K>,
    prefixed: Scaled<S, Quantity<K>>,
)
    ensures
        base.eq_spec(&prefixed) == prefixed.eq_spec(&base),
{
}

/// Equality carries over three quantities of one base, whatever prefix each
/// of them has.
pub proof fn equality_is_transitive<S: Scale, T: Scale, U: Scale, B: Base>(
    first: Scaled<S, B>,
    second: Scaled<T, B>,
    third: Scaled<U, B>,
)
    requires
        first.eq_spec(&second),
        second.eq_spec(&third),
    ensures
        first.eq_spec(&third),
{
}

/// Nothing is nothing at every scale: a base quantity of zero equals a
/// prefixed quantity of zero.
pub proof fn zero_is_equal_at_every_scale<S: Scale, K: BaseKind>(
    base: Quantity<K>,
    prefixed: Scaled<S, Quantity<K>>,
)
    requires
        base.magnitude() == 0real,
        prefixed.magnitude() == 0real,
    ensures
        base.eq_spec(&prefixed),
        prefixed.eq_spec(&base),
{
    let factor = Scaled::<S, Quantity<K>>::base_factor();
    assert(0real * factor == 0real) by (nonlinear_arith);
}

/// A prefix of exponent zero is the base unit under another name: its factor
/// is one, so a quantity keeps its magnitude on the way to the base and back,
/// and equals a base quantity exactly where the magnitudes are equal.
pub proof fn zero_exponent_is_identity<S: Scale, K: BaseKind>(
    prefixed: Scaled<S, Quantity<K>>,
    base: Quantity<K>,
)
    requires
        S::exponent_spec() == 0,
    ensures
        Scaled::<S, Quantity<K>>::base_factor() == 1real,
        prefixed.magnitude() * Scaled::<S, Quantity<K>>::base_factor() == prefixed.magnitude(),
        base.magnitude() / Scaled::<S, Quantity<K>>::base_factor() == base.magnitude(),
        prefixed.eq_spec(&base) == (prefixed.magnitude() == base.magnitude()),
        base.eq_spec(&prefixed) == (prefixed.magnitude() == base.magnitude()),
{
    reveal_with_fuel(pow, 1);
    let factor = Scaled::<S, Quantity<K>>::base_factor();
    assert(factor == 1real);
    let p = prefixed.magnitude();
    let b = base.magnitude();
    assert(p * 1real == p) by (nonlinear_arith);
    assert(b / 1real == b) by (nonlinear_arith);
}

/// With a prefix of exponent zero, sums and differences are those of the
/// magnitudes: what the operators of a prefixed quantity compute is then what
/// those of a base quantity compute.
pub proof fn zero_exponent_adds_as_the_base<S: Scale, K: BaseKind>(left: real, right: real)
    requires
        S::exponent_spec() == 0,
    ensures
        (left * Scaled::<S, Quantity<K>>::base_factor() + right * 1real) / Scaled::<
            S,
            Quantity<K>,
        >::base_factor() == left + right,
        (left * Scaled::<S, Quantity<K>>::base_factor() - right * 1real) / Scaled::<
            S,
            Quantity<K>,
        >::base_factor() == left - right,
{
    reveal_with_fuel(pow, 1);
    assert(Scaled::<S, Quantity<K>>::base_factor() == 1real);
    assert((left * 1real + right * 1real) / 1real == left + right) by (nonlinear_arith);
    assert((left * 1real - right * 1real) / 1real == left - right) by (nonlinear_arith);
}

/// The factor of a prefix below the unit is exactly one over a power of ten:
/// multiplied with ten to the absolute value of the exponent it gives one.
pub proof fn negative_exponent_inverts(exp: int)
    requires
        exp < 0,
    ensures
        power_of_ten(exp) * (pow(10, (-exp) as nat) as real) == 1real,
        power_of_ten(exp) * power_of_ten(-exp) == 1real,
{
    lemma_pow_positive(10, (-exp) as nat);
    let whole = pow(10, (-exp) as nat) as real;
    assert((1real / whole) * whole == 1real) by (nonlinear_arith)
        requires
            whole > 0real,
    ;
}

/// A sum is the same quantity whichever operand stands on the left: the
/// base quantity `left_sum`, which is `base + prefixed`, equals the prefixed
/// quantity `right_sum`, which is `prefixed + base`.
pub proof fn addition_commutes_across_scales<S: Scale, K: BaseKind>(
    base: Quantity<K>,
    prefixed: Scaled<S, Quantity<K>>,
    left_sum: Quantity<K>,
    right_sum: Scaled<S, Quantity<K>>,
)
    requires
        left_sum.magnitude() == base.magnitude() + prefixed.magnitude() * Scaled::<
            S,
            Quantity<K>,
        >::base_factor(),
        right_sum.magnitude() == (prefixed.magnitude() * Scaled::<S, Quantity<K>>::base_factor()
            + base.magnitude() * Quantity::<K>::base_factor()) / Scaled::<
            S,
            Quantity<K>,
        >::base_factor(),
    ensures
        left_sum.eq_spec(&right_sum),
        right_sum.eq_spec(&left_sum),
{
    let factor = Scaled::<S, Quantity<K>>::base_factor();
    let b = base.magnitude();
    let p = prefixed.magnitude();
    power_of_ten_is_positive(S::exponent_spec());
    assert(((p * factor + b * 1real) / factor) * factor == b + p * factor) by (nonlinear_arith)
        requires
            factor > 0real,
    ;
}

/// Between two quantities of one prefix, a sum and a difference are those of
/// the magnitudes as they are held.
pub proof fn same_scale_adds_magnitudes<S: Scale, B: Base>(left: real, right: real)
    ensures
        (left * Scaled::<S, B>::base_factor() + right * Scaled::<S, B>::base_factor()) / Scaled::<
            S,
            B,
        >::base_factor() == left + right,
        (left * Scaled::<S, B>::base_factor() - right * Scaled::<S, B>::base_factor()) / Scaled::<
            S,
            B,
        >::base_factor() == left - right,
{
    let factor = Scaled::<S, B>::base_factor();
    power_of_ten_is_positive(S::exponent_spec());
    assert((left * factor + right * factor) / factor == left + right) by (nonlinear_arith)
        requires
            factor > 0real,
    ;
    assert((left * factor - right * factor) / factor == left - right) by (nonlinear_arith)
        requires
            factor > 0real,
    ;
}

/// A quantity brought to another prefix is still the same quantity: where
/// `scaled` is `value` in base units divided by the factor of the new prefix,
/// the two are equal.
pub proof fn scaling_keeps_the_quantity<S: Scale, T: Scale, B: Base>(
    value: Scaled<T, B>,
    scaled: Scaled<S, B>,
)
    requires
        scaled.magnitude() == value.magnitude() * Scaled::<T, B>::base_factor() / Scaled::<
            S,
            B,
        >::base_factor(),
    ensures
        scaled.eq_spec(&value),
        value.eq_spec(&scaled),
{
    let from = Scaled::<T, B>::base_factor();
    let to = Scaled::<S, B>::base_factor();
    let v = value.magnitude();
    power_of_ten_is_positive(S::exponent_spec());
    assert((v * from / to) * to == v * from) by (nonlinear_arith)
        requires
            to > 0real,
    ;
}

/// Two quantities of one unit are equal exactly where their magnitudes are:
/// no unit has a factor of zero, so the factor cancels.
pub proof fn same_unit_compares_magnitudes<B: Base, P: IntoBase<B>>(left: P, right: P)
    ensures
        (left.magnitude() * P::base_factor() == right.magnitude() * P::base_factor()) == (
        left.magnitude() == right.magnitude()),
{
    let factor = P::base_factor();
    let l = left.magnitude();
    let r = right.magnitude();
    P::base_factor_is_not_zero();
    assert(l * factor == r * factor ==> l == r) by (nonlinear_arith)
        requires
            factor != 0real,
    ;
}

/// A base quantity added to a prefixed one counts for its magnitude divided
/// by the factor: the sum stays in the unit of the left operand.
pub proof fn base_operand_is_divided_by_the_factor<S: Scale, B: Base>(left: real, right: real)
    ensures
        (left * Scaled::<S, B>::base_factor() + right * <B as IntoBase<B>>::base_factor())
            / Scaled::<S, B>::base_factor() == left + right / Scaled::<S, B>::base_factor(),
        (left * Scaled::<S, B>::base_factor() - right * <B as IntoBase<B>>::base_factor())
            / Scaled::<S, B>::base_factor() == left - right / Scaled::<S, B>::base_factor(),
{
    let factor = Scaled::<S, B>::base_factor();
    B::base_factor_is_one();
    power_of_ten_is_positive(S::exponent_spec());
    assert((left * factor + right * 1real) / factor == left + right / factor) by (nonlinear_arith)
        requires
            factor > 0real,
    ;
    assert((left * factor - right * 1real) / factor == left - right / factor) by (nonlinear_arith)
        requires
            factor > 0real,
    ;
}

} // verus!

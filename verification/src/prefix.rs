//! The metric prefixes: quantities counted in a power of ten of a base unit.

mod kinds;
mod names;
mod ops;

use crate::base::Base;
use crate::dimension::Amount;
use crate::dimension::Current;
use crate::dimension::Intensity;
use crate::dimension::Length;
use crate::dimension::Mass;
use crate::dimension::Temperature;
use crate::dimension::Time;
use crate::integer::integer_from_i128;
use crate::integer::integer_pow;
use crate::unit::IntoBase;
use crate::unit::Scalar;
use crate::unit::Unit;
use crate::value::ratio_div;
use crate::value::ratio_mul;
use crate::value::ratio_new;
use crate::value::DivisionByZero;
use crate::value::ExactValue;
use std::marker::PhantomData;
use vstd::arithmetic::power::lemma_pow_positive;
use vstd::arithmetic::power::pow;
use vstd::prelude::*;
use vstd::string::StringExecFns;

pub use crate::prefix::kinds::Atto;
pub use crate::prefix::kinds::AttoScale;
pub use crate::prefix::kinds::Centi;
pub use crate::prefix::kinds::CentiScale;
pub use crate::prefix::kinds::Deca;
pub use crate::prefix::kinds::DecaScale;
pub use crate::prefix::kinds::Deci;
pub use crate::prefix::kinds::DeciScale;
pub use crate::prefix::kinds::Exa;
pub use crate::prefix::kinds::ExaScale;
pub use crate::prefix::kinds::Femto;
pub use crate::prefix::kinds::FemtoScale;
pub use crate::prefix::kinds::Giga;
pub use crate::prefix::kinds::GigaScale;
pub use crate::prefix::kinds::Hecto;
pub use crate::prefix::kinds::HectoScale;
pub use crate::prefix::kinds::Kilo;
pub use crate::prefix::kinds::KiloScale;
pub use crate::prefix::kinds::Mega;
pub use crate::prefix::kinds::MegaScale;
pub use crate::prefix::kinds::Micro;
pub use crate::prefix::kinds::MicroScale;
pub use crate::prefix::kinds::Milli;
pub use crate::prefix::kinds::MilliScale;
pub use crate::prefix::kinds::Nano;
pub use crate::prefix::kinds::NanoScale;
pub use crate::prefix::kinds::Peta;
pub use crate::prefix::kinds::PetaScale;
pub use crate::prefix::kinds::Pico;
pub use crate::prefix::kinds::PicoScale;
pub use crate::prefix::kinds::Tera;
pub use crate::prefix::kinds::TeraScale;
pub use crate::prefix::kinds::Unity;
pub use crate::prefix::kinds::UnityScale;
pub use crate::prefix::kinds::Yocto;
pub use crate::prefix::kinds::YoctoScale;
pub use crate::prefix::kinds::Yotta;
pub use crate::prefix::kinds::YottaScale;
pub use crate::prefix::kinds::Zepto;
pub use crate::prefix::kinds::ZeptoScale;
pub use crate::prefix::kinds::Zetta;
pub use crate::prefix::kinds::ZettaScale;
pub use crate::prefix::names::longform_of;
pub use crate::prefix::names::prefix_longform;
pub use crate::prefix::names::prefix_shortform;
pub use crate::prefix::names::shortform_of;

verus! {

/// Ten to the power `exp`: a whole number for an exponent from zero up, and
/// one over a whole number for an exponent below zero.
pub open spec fn power_of_ten(exp: int) -> real {
    if exp >= 0 {
        pow(10, exp as nat) as real
    } else {
        1real / (pow(10, (-exp) as nat) as real)
    }
}

/// No power of ten is zero or less.
pub proof fn power_of_ten_is_positive(exp: int)
    ensures
        power_of_ten(exp) > 0real,
{
    if exp >= 0 {
        lemma_pow_positive(10, exp as nat);
    } else {
        lemma_pow_positive(10, (-exp) as nat);
        let whole = pow(10, (-exp) as nat) as real;
        assert(1real / whole > 0real) by (nonlinear_arith)
            requires
                whole > 0real,
        ;
    }
}

/// The factor of the prefix with exponent `exp`, which is ten to that power.
/// For an exponent below zero the power is taken of its absolute value, and
/// the fraction is turned over only then.
pub fn generate_prefix_factor(exp: isize) -> (factor: ExactValue)
    ensures
        factor@ == power_of_ten(exp as int),
{
    let ten = integer_from_i128(10);
    let one = integer_from_i128(1);
    if exp >= 0 {
        let power = integer_pow(&ten, exp as usize);
        ratio_new(&power, &one)
    } else {
        let positive: usize = (-(exp + 1)) as usize + 1;
        let power = integer_pow(&ten, positive);
        proof {
            lemma_pow_positive(10, positive as nat);
        }
        ratio_new(&one, &power)
    }
}

/// What tells one prefix from another: the power of ten that it stands for.
pub trait Scale {
    /// The exponent of ten.
    spec fn exponent_spec() -> int;

    /// The exponent of ten.
    fn exponent() -> (exp: isize)
        ensures
            exp == Self::exponent_spec(),
    ;
}

/// A prefix of the base unit `B`.
pub trait Prefix<B: Base>: Unit + IntoBase<B> {
    /// How many base units one of this unit is: a power of ten, the same at
    /// every call.
    fn factor() -> (factor: ExactValue)
        ensures
            factor@ == Self::base_factor(),
    ;

    /// The quantity `value`, of any unit of the same base, counted in this
    /// unit.
    fn scale<P: IntoBase<B>>(value: P) -> (scaled: Self)
        ensures
            scaled.magnitude() == value.magnitude() * P::base_factor() / Self::base_factor(),
    ;
}

/// A quantity counted in the multiple `S` of the base unit `B`.
#[derive(Debug)]
pub struct Scaled<S: Scale, B: Base> {
    value: ExactValue,
    scale: PhantomData<S>,
    base: PhantomData<B>,
}

impl<S: Scale, B: Base> Unit for Scaled<S, B> {
    closed spec fn magnitude(&self) -> real {
        self.value@
    }

    open spec fn longform_text() -> Seq<char> {
        longform_of(S::exponent_spec()) + B::longform_text()
    }

    open spec fn shortform_text() -> Seq<char> {
        shortform_of(S::exponent_spec()) + B::shortform_text()
    }

    fn new(val: ExactValue) -> (unit: Self) {
        Scaled { value: val, scale: PhantomData, base: PhantomData }
    }

    fn value(self) -> (val: ExactValue) {
        self.value
    }

    fn value_ref(&self) -> (val: &ExactValue) {
        &self.value
    }

    fn longform() -> (text: String) {
        let base = B::longform();
        String::from_str(prefix_longform(S::exponent())).concat(base.as_str())
    }

    fn shortform() -> (text: String) {
        let base = B::shortform();
        String::from_str(prefix_shortform(S::exponent())).concat(base.as_str())
    }
}

impl<S: Scale, B: Base> IntoBase<B> for Scaled<S, B> {
    open spec fn base_factor() -> real {
        power_of_ten(S::exponent_spec())
    }

    proof fn base_factor_is_not_zero() {
        power_of_ten_is_positive(S::exponent_spec());
    }

    fn base(self) -> (converted: B) {
        let factor = generate_prefix_factor(S::exponent());
        B::new(ratio_mul(&self.value, &factor))
    }

    fn base_value(&self) -> (val: ExactValue) {
        let factor = generate_prefix_factor(S::exponent());
        ratio_mul(&self.value, &factor)
    }
}

impl<S: Scale, B: Base> Prefix<B> for Scaled<S, B> {
    fn factor() -> (factor: ExactValue) {
        generate_prefix_factor(S::exponent())
    }

    fn scale<P: IntoBase<B>>(value: P) -> (scaled: Self) {
        let factor = generate_prefix_factor(S::exponent());
        proof {
            power_of_ten_is_positive(S::exponent_spec());
        }
        let base = value.base().value();
        Scaled { value: ratio_div(&base, &factor), scale: PhantomData, base: PhantomData }
    }
}

impl<S: Scale, B: Base> Clone for Scaled<S, B> {
    fn clone(&self) -> (copy: Self)
        ensures
            copy.magnitude() == self.magnitude(),
    {
        Scaled { value: self.value.clone(), scale: PhantomData, base: PhantomData }
    }
}

impl<S: Scale, B: Base> Scaled<S, B> {
    /// The same quantity counted in base units: what `base` gives.
    pub fn to_base(self) -> (converted: B)
        ensures
            converted.magnitude() == self.magnitude() * Self::base_factor(),
    {
        self.base()
    }

    /// The quantity divided by `rhs`, or the error where `rhs` is zero.
    pub fn checked_div<T: Scalar>(self, rhs: T) -> (quotient: Result<Scaled<S, B>, DivisionByZero>)
        ensures
            rhs.number() == 0real <==> quotient is Err,
            quotient matches Ok(q) ==> q.magnitude() == self.magnitude() / rhs.number(),
    {
        let by = rhs.into_exact();
        if by.is_zero() {
            Err(DivisionByZero)
        } else {
            Ok(Scaled { value: ratio_div(&self.value, &by), scale: PhantomData, base: PhantomData })
        }
    }
}

impl<S: Scale, B: Base + Length> Length for Scaled<S, B> {}

impl<S: Scale, B: Base + Mass> Mass for Scaled<S, B> {}

impl<S: Scale, B: Base + Time> Time for Scaled<S, B> {}

impl<S: Scale, B: Base + Current> Current for Scaled<S, B> {}

impl<S: Scale, B: Base + Temperature> Temperature for Scaled<S, B> {}

impl<S: Scale, B: Base + Amount> Amount for Scaled<S, B> {}

impl<S: Scale, B: Base + Intensity> Intensity for Scaled<S, B> {}

} // verus!

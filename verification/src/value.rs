//! Exact rational numbers.

use crate::integer::integer_from_i128;
use crate::integer::Integer;
use num::bigint::BigInt;
use num::rational::BigRational;
use vstd::prelude::*;
use vstd::std_specs::cmp::PartialEqSpecImpl;

verus! {

/// The failure of a division whose divisor is zero.
#[derive(Clone, Copy, Debug, PartialEq, Eq, Structural)]
pub struct DivisionByZero;

/// A rational number, held exactly as a numerator over a denominator. Its
/// view is the number itself.
///
/// The denominator is never zero. A value is made only by the functions at
/// the end of this file, from a ratio that `num` has built, and `num` keeps
/// the denominator of every ratio it builds above zero.
#[derive(Debug)]
pub struct ExactValue {
    numer: Integer,
    denom: Integer,
}

impl View for ExactValue {
    type V = real;

    closed spec fn view(&self) -> real {
        self.numer@ as real / self.denom@ as real
    }
}

impl ExactValue {
    #[verifier::type_invariant]
    spec fn has_denominator(&self) -> bool {
        self.denom@ != 0
    }

    /// The rational `numer / denom`, or the error where `denom` is zero.
    pub fn new(numer: Integer, denom: Integer) -> (made: Result<ExactValue, DivisionByZero>)
        ensures
            denom@ == 0 <==> made is Err,
            made matches Ok(v) ==> v@ == numer@ as real / denom@ as real,
    {
        if ratio_from_integer(&denom).is_zero() {
            Err(DivisionByZero)
        } else {
            Ok(ratio_new(&numer, &denom))
        }
    }

    /// A numerator and a denominator that spell the number out: the number
    /// is the first over the second, which is not zero.
    pub fn parts(&self) -> (parts: (Integer, Integer))
        ensures
            parts.1@ != 0,
            self@ == parts.0@ as real / parts.1@ as real,
    {
        proof {
            use_type_invariant(self);
        }
        (self.numer.clone(), self.denom.clone())
    }

    /// Whether the number is zero.
    pub fn is_zero(&self) -> (zero: bool)
        ensures
            zero == (self@ == 0real),
    {
        let nothing = ratio_from_integer(&integer_from_i128(0));
        ratio_eq(self, &nothing)
    }

    /// The rational `numerator / denominator`, where a denominator of zero
    /// stands for one: every pair of machine integers gives a number.
    pub fn from_parts(numerator: i64, denominator: i64) -> (v: ExactValue)
        ensures
            denominator != 0 ==> v@ == numerator as int as real / denominator as int as real,
            denominator == 0 ==> v@ == numerator as int as real,
    {
        let denominator: i64 = if denominator == 0 {
            1
        } else {
            denominator
        };
        let n = integer_from_i128(numerator as i128);
        let d = integer_from_i128(denominator as i128);
        let v = ratio_new(&n, &d);
        assert(numerator as int as real / 1real == numerator as int as real) by (nonlinear_arith);
        v
    }
}

impl Clone for ExactValue {
    fn clone(&self) -> (v: ExactValue)
        ensures
            v@ == self@,
    {
        proof {
            use_type_invariant(self);
        }
        ExactValue { numer: self.numer.clone(), denom: self.denom.clone() }
    }
}

impl PartialEqSpecImpl for ExactValue {
    open spec fn obeys_eq_spec() -> bool {
        true
    }

    open spec fn eq_spec(&self, other: &ExactValue) -> bool {
        self@ == other@
    }
}

impl PartialEq for ExactValue {
    /// Two values are equal when they are the same number, however each is
    /// written.
    fn eq(&self, other: &ExactValue) -> (same: bool) {
        ratio_eq(self, other)
    }
}

impl Eq for ExactValue {}

/// `BigRational::new` on two `BigInt`s read from bytes
/// (`BigInt::from_signed_bytes_le`): the quotient of the two, which `num`
/// puts in lowest terms, handed back as bytes (`BigInt::to_signed_bytes_le`).
/// `BigRational::new` panics on a denominator of zero, so none is let in.
#[verifier::external_body]
pub(crate) fn ratio_new(numer: &Integer, denom: &Integer) -> (v: ExactValue)
    requires
        denom@ != 0,
    ensures
        v@ == numer@ as real / denom@ as real,
{
    let n = BigInt::from_signed_bytes_le(&numer.bytes);
    let d = BigInt::from_signed_bytes_le(&denom.bytes);
    let r = BigRational::new(n, d);
    ExactValue {
        numer: Integer { bytes: r.numer().to_signed_bytes_le() },
        denom: Integer { bytes: r.denom().to_signed_bytes_le() },
    }
}

/// `BigRational::from_integer` on a `BigInt` read from `n`'s bytes: the
/// integer over one, handed back as bytes.
#[verifier::external_body]
pub(crate) fn ratio_from_integer(n: &Integer) -> (v: ExactValue)
    ensures
        v@ == n@ as real,
{
    let r = BigRational::from_integer(BigInt::from_signed_bytes_le(&n.bytes));
    ExactValue {
        numer: Integer { bytes: r.numer().to_signed_bytes_le() },
        denom: Integer { bytes: r.denom().to_signed_bytes_le() },
    }
}

/// `+` of two `BigRational`s, each rebuilt with `BigRational::new` from the
/// bytes held, whose denominator is never zero: the exact sum, handed back
/// as bytes.
#[verifier::external_body]
pub(crate) fn ratio_add(a: &ExactValue, b: &ExactValue) -> (v: ExactValue)
    ensures
        v@ == a@ + b@,
{
    let x = BigRational::new(
        BigInt::from_signed_bytes_le(&a.numer.bytes),
        BigInt::from_signed_bytes_le(&a.denom.bytes),
    );
    let y = BigRational::new(
        BigInt::from_signed_bytes_le(&b.numer.bytes),
        BigInt::from_signed_bytes_le(&b.denom.bytes),
    );
    let r = x + y;
    ExactValue {
        numer: Integer { bytes: r.numer().to_signed_bytes_le() },
        denom: Integer { bytes: r.denom().to_signed_bytes_le() },
    }
}

/// `-` of two `BigRational`s, each rebuilt with `BigRational::new` from the
/// bytes held, whose denominator is never zero: the exact difference, handed back
/// as bytes.
#[verifier::external_body]
pub(crate) fn ratio_sub(a: &ExactValue, b: &ExactValue) -> (v: ExactValue)
    ensures
        v@ == a@ - b@,
{
    let x = BigRational::new(
        BigInt::from_signed_bytes_le(&a.numer.bytes),
        BigInt::from_signed_bytes_le(&a.denom.bytes),
    );
    let y = BigRational::new(
        BigInt::from_signed_bytes_le(&b.numer.bytes),
        BigInt::from_signed_bytes_le(&b.denom.bytes),
    );
    let r = x - y;
    ExactValue {
        numer: Integer { bytes: r.numer().to_signed_bytes_le() },
        denom: Integer { bytes: r.denom().to_signed_bytes_le() },
    }
}

/// `*` of two `BigRational`s, each rebuilt with `BigRational::new` from the
/// bytes held, whose denominator is never zero: the exact product, handed back
/// as bytes.
#[verifier::external_body]
pub(crate) fn ratio_mul(a: &ExactValue, b: &ExactValue) -> (v: ExactValue)
    ensures
        v@ == a@ * b@,
{
    let x = BigRational::new(
        BigInt::from_signed_bytes_le(&a.numer.bytes),
        BigInt::from_signed_bytes_le(&a.denom.bytes),
    );
    let y = BigRational::new(
        BigInt::from_signed_bytes_le(&b.numer.bytes),
        BigInt::from_signed_bytes_le(&b.denom.bytes),
    );
    let r = x * y;
    ExactValue {
        numer: Integer { bytes: r.numer().to_signed_bytes_le() },
        denom: Integer { bytes: r.denom().to_signed_bytes_le() },
    }
}

/// `/` of two `BigRational`s, each rebuilt with `BigRational::new` from the
/// bytes held, whose denominator is never zero: the exact quotient, handed
/// back as bytes. The division panics on a divisor of zero, so none is let
/// in.
#[verifier::external_body]
pub(crate) fn ratio_div(a: &ExactValue, b: &ExactValue) -> (v: ExactValue)
    requires
        b@ != 0real,
    ensures
        v@ == a@ / b@,
{
    let x = BigRational::new(
        BigInt::from_signed_bytes_le(&a.numer.bytes),
        BigInt::from_signed_bytes_le(&a.denom.bytes),
    );
    let y = BigRational::new(
        BigInt::from_signed_bytes_le(&b.numer.bytes),
        BigInt::from_signed_bytes_le(&b.denom.bytes),
    );
    let r = x / y;
    ExactValue {
        numer: Integer { bytes: r.numer().to_signed_bytes_le() },
        denom: Integer { bytes: r.denom().to_signed_bytes_le() },
    }
}

/// `==` of two `BigRational`s, each rebuilt with `BigRational::new` from the
/// bytes held, whose denominator is never zero: whether the two are the same
/// number.
#[verifier::external_body]
fn ratio_eq(a: &ExactValue, b: &ExactValue) -> (same: bool)
    ensures
        same == (a@ == b@),
{
    let x = BigRational::new(
        BigInt::from_signed_bytes_le(&a.numer.bytes),
        BigInt::from_signed_bytes_le(&a.denom.bytes),
    );
    let y = BigRational::new(
        BigInt::from_signed_bytes_le(&b.numer.bytes),
        BigInt::from_signed_bytes_le(&b.denom.bytes),
    );
    x == y
}

} // verus!

//! Integers of any size, held as two's complement bytes.

use num::bigint::BigInt;
use vstd::arithmetic::power::pow;
use vstd::prelude::*;

verus! {

/// The number that `bytes` spell in base 256, least significant digit first.
pub open spec fn unsigned_le(bytes: Seq<u8>) -> nat
    decreases bytes.len(),
{
    if bytes.len() == 0 {
        0
    } else {
        bytes[0] as nat + 256 * unsigned_le(bytes.drop_first())
    }
}

/// The number that `bytes` spell in two's complement, least significant byte
/// first: the top bit of the last byte is the sign, and no byte at all is zero.
pub open spec fn signed_le(bytes: Seq<u8>) -> int {
    if bytes.len() > 0 && bytes.last() >= 128 {
        unsigned_le(bytes) - pow(256, bytes.len())
    } else {
        unsigned_le(bytes) as int
    }
}

/// An integer of any size.
#[derive(Debug)]
pub struct Integer {
    pub(crate) bytes: Vec<u8>,
}

impl View for Integer {
    type V = int;

    closed spec fn view(&self) -> int {
        signed_le(self.bytes@)
    }
}

impl Integer {
    /// The integer that `bytes` spell in two's complement, least significant
    /// byte first.
    pub fn from_signed_bytes_le(bytes: Vec<u8>) -> (n: Integer)
        ensures
            n@ == signed_le(bytes@),
    {
        Integer { bytes }
    }

    /// Two's complement bytes of this integer, least significant first.
    pub fn to_signed_bytes_le(&self) -> (bytes: Vec<u8>)
        ensures
            signed_le(bytes@) == self@,
    {
        self.bytes.clone()
    }
}

impl Clone for Integer {
    fn clone(&self) -> (n: Integer)
        ensures
            n@ == self@,
    {
        Integer { bytes: self.bytes.clone() }
    }
}

/// `BigInt::from` on an `i128`, handed back as two's complement bytes
/// (`BigInt::to_signed_bytes_le`): the integer made has the value of `v`.
#[verifier::external_body]
pub(crate) fn integer_from_i128(v: i128) -> (n: Integer)
    ensures
        n@ == v,
{
    Integer { bytes: BigInt::from(v).to_signed_bytes_le() }
}

/// `num::pow::pow` on a `BigInt` read from `base`'s bytes
/// (`BigInt::from_signed_bytes_le`): `base` multiplied with itself `exp`
/// times, which is one where `exp` is zero.
#[verifier::external_body]
pub(crate) fn integer_pow(base: &Integer, exp: usize) -> (n: Integer)
    ensures
        n@ == pow(base@, exp as nat),
{
    let b = BigInt::from_signed_bytes_le(&base.bytes);
    Integer { bytes: num::pow::pow(b, exp).to_signed_bytes_le() }
}

} // verus!

//! The twenty prefixes of the SI, and the prefix that changes nothing.

use crate::prefix::Scale;
use crate::prefix::Scaled;
use vstd::prelude::*;

verus! {

/// Ten to the power 24.
#[derive(Clone, Copy, Debug)]
pub struct YottaScale;

impl Scale for YottaScale {
    open spec fn exponent_spec() -> int {
        24
    }

    fn exponent() -> (exp: isize) {
        24
    }
}

/// A yotta is 10^24 of the base unit.
pub type Yotta<B> = Scaled<YottaScale, B>;

/// Ten to the power 21.
#[derive(Clone, Copy, Debug)]
pub struct ZettaScale;

impl Scale for ZettaScale {
    open spec fn exponent_spec() -> int {
        21
    }

    fn exponent() -> (exp: isize) {
        21
    }
}

/// A zetta is 10^21 of the base unit.
pub type Zetta<B> = Scaled<ZettaScale, B>;

/// Ten to the power 18.
#[derive(Clone, Copy, Debug)]
pub struct ExaScale;

impl Scale for ExaScale {
    open spec fn exponent_spec() -> int {
        18
    }

    fn exponent() -> (exp: isize) {
        18
    }
}

/// An exa is 10^18 of the base unit.
pub type Exa<B> = Scaled<ExaScale, B>;

/// Ten to the power 15.
#[derive(Clone, Copy, Debug)]
pub struct PetaScale;

impl Scale for PetaScale {
    open spec fn exponent_spec() -> int {
        15
    }

    fn exponent() -> (exp: isize) {
        15
    }
}

/// A peta is 10^15 of the base unit.
pub type Peta<B> = Scaled<PetaScale, B>;

/// Ten to the power 12.
#[derive(Clone, Copy, Debug)]
pub struct TeraScale;

impl Scale for TeraScale {
    open spec fn exponent_spec() -> int {
        12
    }

    fn exponent() -> (exp: isize) {
        12
    }
}

/// A tera is 10^12 of the base unit.
pub type Tera<B> = Scaled<TeraScale, B>;

/// Ten to the power 9.
#[derive(Clone, Copy, Debug)]
pub struct GigaScale;

impl Scale for GigaScale {
    open spec fn exponent_spec() -> int {
        9
    }

    fn exponent() -> (exp: isize) {
        9
    }
}

/// A giga is 10^9 of the base unit.
pub type Giga<B> = Scaled<GigaScale, B>;

/// Ten to the power 6.
#[derive(Clone, Copy, Debug)]
pub struct MegaScale;

impl Scale for MegaScale {
    open spec fn exponent_spec() -> int {
        6
    }

    fn exponent() -> (exp: isize) {
        6
    }
}

/// A mega is 10^6 of the base unit.
pub type Mega<B> = Scaled<MegaScale, B>;

/// Ten to the power 3.
#[derive(Clone, Copy, Debug)]
pub struct KiloScale;

impl Scale for KiloScale {
    open spec fn exponent_spec() -> int {
        3
    }

    fn exponent() -> (exp: isize) {
        3
    }
}

/// A kilo is 10^3 of the base unit.
pub type Kilo<B> = Scaled<KiloScale, B>;

/// Ten to the power 2.
#[derive(Clone, Copy, Debug)]
pub struct HectoScale;

impl Scale for HectoScale {
    open spec fn exponent_spec() -> int {
        2
    }

    fn exponent() -> (exp: isize) {
        2
    }
}

/// A hecto is 10^2 of the base unit.
pub type Hecto<B> = Scaled<HectoScale, B>;

/// Ten to the power 1.
#[derive(Clone, Copy, Debug)]
pub struct DecaScale;

impl Scale for DecaScale {
    open spec fn exponent_spec() -> int {
        1
    }

    fn exponent() -> (exp: isize) {
        1
    }
}

/// A deca is 10^1 of the base unit.
pub type Deca<B> = Scaled<DecaScale, B>;

/// Ten to the power 0.
#[derive(Clone, Copy, Debug)]
pub struct UnityScale;

impl Scale for UnityScale {
    open spec fn exponent_spec() -> int {
        0
    }

    fn exponent() -> (exp: isize) {
        0
    }
}

/// A unity is 10^0 of the base unit: the base unit itself, without a name of
/// its own.
pub type Unity<B> = Scaled<UnityScale, B>;

/// Ten to the power -1.
#[derive(Clone, Copy, Debug)]
pub struct DeciScale;

impl Scale for DeciScale {
    open spec fn exponent_spec() -> int {
        -1
    }

    fn exponent() -> (exp: isize) {
        -1
    }
}

/// A deci is 10^-1 of the base unit.
pub type Deci<B> = Scaled<DeciScale, B>;

/// Ten to the power -2.
#[derive(Clone, Copy, Debug)]
pub struct CentiScale;

impl Scale for CentiScale {
    open spec fn exponent_spec() -> int {
        -2
    }

    fn exponent() -> (exp: isize) {
        -2
    }
}

/// A centi is 10^-2 of the base unit.
pub type Centi<B> = Scaled<CentiScale, B>;

/// Ten to the power -3.
#[derive(Clone, Copy, Debug)]
pub struct MilliScale;

impl Scale for MilliScale {
    open spec fn exponent_spec() -> int {
        -3
    }

    fn exponent() -> (exp: isize) {
        -3
    }
}

/// A milli is 10^-3 of the base unit.
pub type Milli<B> = Scaled<MilliScale, B>;

/// Ten to the power -6.
#[derive(Clone, Copy, Debug)]
pub struct MicroScale;

impl Scale for MicroScale {
    open spec fn exponent_spec() -> int {
        -6
    }

    fn exponent() -> (exp: isize) {
        -6
    }
}

/// A micro is 10^-6 of the base unit.
pub type Micro<B> = Scaled<MicroScale, B>;

/// Ten to the power -9.
#[derive(Clone, Copy, Debug)]
pub struct NanoScale;

impl Scale for NanoScale {
    open spec fn exponent_spec() -> int {
        -9
    }

    fn exponent() -> (exp: isize) {
        -9
    }
}

/// A nano is 10^-9 of the base unit.
pub type Nano<B> = Scaled<NanoScale, B>;

/// Ten to the power -12.
#[derive(Clone, Copy, Debug)]
pub struct PicoScale;

impl Scale for PicoScale {
    open spec fn exponent_spec() -> int {
        -12
    }

    fn exponent() -> (exp: isize) {
        -12
    }
}

/// A pico is 10^-12 of the base unit.
pub type Pico<B> = Scaled<PicoScale, B>;

/// Ten to the power -15.
#[derive(Clone, Copy, Debug)]
pub struct FemtoScale;

impl Scale for FemtoScale {
    open spec fn exponent_spec() -> int {
        -15
    }

    fn exponent() -> (exp: isize) {
        -15
    }
}

/// A femto is 10^-15 of the base unit.
pub type Femto<B> = Scaled<FemtoScale, B>;

/// Ten to the power -18.
#[derive(Clone, Copy, Debug)]
pub struct AttoScale;

impl Scale for AttoScale {
    open spec fn exponent_spec() -> int {
        -18
    }

    fn exponent() -> (exp: isize) {
        -18
    }
}

/// An atto is 10^-18 of the base unit.
pub type Atto<B> = Scaled<AttoScale, B>;

/// Ten to the power -21.
#[derive(Clone, Copy, Debug)]
pub struct ZeptoScale;

impl Scale for ZeptoScale {
    open spec fn exponent_spec() -> int {
        -21
    }

    fn exponent() -> (exp: isize) {
        -21
    }
}

/// A zepto is 10^-21 of the base unit.
pub type Zepto<B> = Scaled<ZeptoScale, B>;

/// Ten to the power -24.
#[derive(Clone, Copy, Debug)]
pub struct YoctoScale;

impl Scale for YoctoScale {
    open spec fn exponent_spec() -> int {
        -24
    }

    fn exponent() -> (exp: isize) {
        -24
    }
}

/// A yocto is 10^-24 of the base unit.
pub type Yocto<B> = Scaled<YoctoScale, B>;

} // verus!

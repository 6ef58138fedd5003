//! The seven base units of the SI.

use crate::base::BaseKind;
use crate::base::Quantity;
use crate::dimension::Amount;
use crate::dimension::Current;
use crate::dimension::Intensity;
use crate::dimension::Length;
use crate::dimension::Mass;
use crate::dimension::Temperature;
use crate::dimension::Time;
use vstd::prelude::*;

verus! {

/// The name and the symbol of the meter.
#[derive(Clone, Copy, Debug)]
pub struct MeterKind;

impl BaseKind for MeterKind {
    open spec fn longform_text() -> Seq<char> {
        "meter"@
    }

    open spec fn shortform_text() -> Seq<char> {
        "m"@
    }

    fn longform() -> (text: &'static str) {
        "meter"
    }

    fn shortform() -> (text: &'static str) {
        "m"
    }
}

/// A meter is a unit measuring distance.
pub type Meter = Quantity<MeterKind>;

impl Length for Quantity<MeterKind> {}

/// The name and the symbol of the gram.
#[derive(Clone, Copy, Debug)]
pub struct GramKind;

impl BaseKind for GramKind {
    open spec fn longform_text() -> Seq<char> {
        "gram"@
    }

    open spec fn shortform_text() -> Seq<char> {
        "g"@
    }

    fn longform() -> (text: &'static str) {
        "gram"
    }

    fn shortform() -> (text: &'static str) {
        "g"
    }
}

/// A gram is a unit measuring weight.
pub type Gram = Quantity<GramKind>;

impl Mass for Quantity<GramKind> {}

/// The name and the symbol of the second.
#[derive(Clone, Copy, Debug)]
pub struct SecondKind;

impl BaseKind for SecondKind {
    open spec fn longform_text() -> Seq<char> {
        "second"@
    }

    open spec fn shortform_text() -> Seq<char> {
        "s"@
    }

    fn longform() -> (text: &'static str) {
        "second"
    }

    fn shortform() -> (text: &'static str) {
        "s"
    }
}

/// A second is a unit measuring time.
pub type Second = Quantity<SecondKind>;

impl Time for Quantity<SecondKind> {}

/// The name and the symbol of the ampere.
#[derive(Clone, Copy, Debug)]
pub struct AmpereKind;

impl BaseKind for AmpereKind {
    open spec fn longform_text() -> Seq<char> {
        "ampere"@
    }

    open spec fn shortform_text() -> Seq<char> {
        "A"@
    }

    fn longform() -> (text: &'static str) {
        "ampere"
    }

    fn shortform() -> (text: &'static str) {
        "A"
    }
}

/// An ampere is a unit measuring electrical current.
pub type Ampere = Quantity<AmpereKind>;

impl Current for Quantity<AmpereKind> {}

/// The name and the symbol of the kelvin.
#[derive(Clone, Copy, Debug)]
pub struct KelvinKind;

impl BaseKind for KelvinKind {
    open spec fn longform_text() -> Seq<char> {
        "kelvin"@
    }

    open spec fn shortform_text() -> Seq<char> {
        "K"@
    }

    fn longform() -> (text: &'static str) {
        "kelvin"
    }

    fn shortform() -> (text: &'static str) {
        "K"
    }
}

/// A kelvin is a unit measuring thermodynamic temperature.
pub type Kelvin = Quantity<KelvinKind>;

impl Temperature for Quantity<KelvinKind> {}

/// The name and the symbol of the mole.
#[derive(Clone, Copy, Debug)]
pub struct MoleKind;

impl BaseKind for MoleKind {
    open spec fn longform_text() -> Seq<char> {
        "mole"@
    }

    open spec fn shortform_text() -> Seq<char> {
        "mol"@
    }

    fn longform() -> (text: &'static str) {
        "mole"
    }

    fn shortform() -> (text: &'static str) {
        "mol"
    }
}

/// A mole is a unit measuring the amount of a substance.
pub type Mole = Quantity<MoleKind>;

impl Amount for Quantity<MoleKind> {}

/// The name and the symbol of the candela.
#[derive(Clone, Copy, Debug)]
pub struct CandelaKind;

impl BaseKind for CandelaKind {
    open spec fn longform_text() -> Seq<char> {
        "candela"@
    }

    open spec fn shortform_text() -> Seq<char> {
        "cd"@
    }

    fn longform() -> (text: &'static str) {
        "candela"
    }

    fn shortform() -> (text: &'static str) {
        "cd"
    }
}

/// A candela is a unit measuring the amount of luminous intensity.
pub type Candela = Quantity<CandelaKind>;

impl Intensity for Quantity<CandelaKind> {}

} // verus!

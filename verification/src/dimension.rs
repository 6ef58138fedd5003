//! The seven dimensions of the SI. A quantity belongs to exactly one, and
//! only quantities of one dimension meet in an operation.

use vstd::prelude::*;

verus! {

/// Distance.
pub trait Length {}

/// Weight.
pub trait Mass {}

/// Duration.
pub trait Time {}

/// Electrical current.
pub trait Current {}

/// Thermodynamic temperature.
pub trait Temperature {}

/// Amount of a substance.
pub trait Amount {}

/// Luminous intensity.
pub trait Intensity {}

} // verus!

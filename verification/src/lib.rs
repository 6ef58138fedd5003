//! Exact arithmetic on SI quantities.
//!
//! A quantity is a magnitude, held as an exact rational number, in a base
//! unit (meter, gram, ...) or in a decimal multiple of one (kilometer,
//! milligram, ...). Quantities of one dimension add, subtract and compare
//! whatever scale each of them is written in, and no operation rounds.

pub mod base;
pub mod dimension;
pub mod integer;
pub mod laws;
pub mod prefix;
pub mod unit;
pub mod value;

pub use crate::base::Base;
pub use crate::prefix::Prefix;
pub use crate::unit::IntoBase;
pub use crate::unit::Scalar;
pub use crate::unit::Unit;
pub use crate::value::DivisionByZero;
pub use crate::value::ExactValue;

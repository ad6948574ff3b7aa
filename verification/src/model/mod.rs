//! The data model: technology settings, layers, vias, sites and macros.
use vstd::prelude::*;

pub mod geometry;
pub mod keywords;
pub mod layer;
pub mod macro_class;
pub mod makro;
pub mod orient;
pub mod property;
pub mod site;
pub mod technology;
pub mod via;

verus! {

/// A real-valued quantity of the format, held in fixed point: an integer
/// count of the resolution that the event source works in (for lengths,
/// for instance, thousandths of a micron). The library copies and compares
/// quantities and multiplies them by repetition counts; it never rescales them.
pub type LefNumber = i64;

/// A pair of quantities: a point, an extent or a pair of steps.
pub type LefPoint = (LefNumber, LefNumber);

} // verus!

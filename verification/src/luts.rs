//! Lookup tables.

use vstd::prelude::*;

verus! {

/// How a lookup table is read between two of its entries.
#[derive(Debug, Clone)]
pub enum Interpolation {
    /// The entry below.
    Truncate,
    /// The entry that is closest.
    Nearest,
    /// A straight line through the two entries around.
    Linear,
    /// A parabola through three entries.
    Quadratic,
    /// A cubic through four entries.
    Cubic,
}

} // verus!

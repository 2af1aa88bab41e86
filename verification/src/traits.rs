//! Operations that colors offer on all their components at once.

use vstd::prelude::*;

verus! {

/// Checks whether all components of a color lie within their bounds.
pub trait IsWithinBounds {
    /// Whether every component is within its range.
    fn is_within_bounds(&self) -> bool;
}

/// Limits the components of a color to their bounds.
pub trait Clamp {
    /// The color with every component moved into its range.
    fn clamp(self) -> Self;
}

/// Limits the components of a color to their bounds, in place.
pub trait ClampAssign {
    /// Moves every component into its range.
    fn clamp_assign(&mut self);
}

} // verus!

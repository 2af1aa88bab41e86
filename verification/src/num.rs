//! Comparing and clamping single color components.

use vstd::prelude::*;

use crate::stimulus::Stimulus;

verus! {

/// `value` limited to the range from `min` to `max`.
pub open spec fn clamp_value(value: nat, min: nat, max: nat) -> nat {
    if value < min {
        min
    } else if value > max {
        max
    } else {
        value
    }
}

/// Limiting a component to a range.
pub trait Clamp: Stimulus {
    /// The component limited to the range from `min` to `max`.
    fn clamp(self, min: Self, max: Self) -> (r: Self)
        requires
            min.spec_value() <= max.spec_value(),
        ensures
            r.spec_value() == clamp_value(self.spec_value(), min.spec_value(), max.spec_value()),
    ;
}

/// Comparing the amounts of two components.
pub trait PartialCmp: Stimulus {
    /// Whether `self` is at most `other`.
    fn lt_eq(&self, other: &Self) -> (r: bool)
        ensures
            r == (self.spec_value() <= other.spec_value()),
    ;

    /// Whether `self` is at least `other`.
    fn gt_eq(&self, other: &Self) -> (r: bool)
        ensures
            r == (self.spec_value() >= other.spec_value()),
    ;
}

impl Clamp for u8 {
    fn clamp(self, min: Self, max: Self) -> (r: Self) {
        if self < min {
            min
        } else if self > max {
            max
        } else {
            self
        }
    }
}

impl Clamp for u16 {
    fn clamp(self, min: Self, max: Self) -> (r: Self) {
        if self < min {
            min
        } else if self > max {
            max
        } else {
            self
        }
    }
}

impl Clamp for u32 {
    fn clamp(self, min: Self, max: Self) -> (r: Self) {
        if self < min {
            min
        } else if self > max {
            max
        } else {
            self
        }
    }
}

impl Clamp for u64 {
    fn clamp(self, min: Self, max: Self) -> (r: Self) {
        if self < min {
            min
        } else if self > max {
            max
        } else {
            self
        }
    }
}

impl PartialCmp for u8 {
    fn lt_eq(&self, other: &Self) -> (r: bool) {
        *self <= *other
    }

    fn gt_eq(&self, other: &Self) -> (r: bool) {
        *self >= *other
    }
}

impl PartialCmp for u16 {
    fn lt_eq(&self, other: &Self) -> (r: bool) {
        *self <= *other
    }

    fn gt_eq(&self, other: &Self) -> (r: bool) {
        *self >= *other
    }
}

impl PartialCmp for u32 {
    fn lt_eq(&self, other: &Self) -> (r: bool) {
        *self <= *other
    }

    fn gt_eq(&self, other: &Self) -> (r: bool) {
        *self >= *other
    }
}

impl PartialCmp for u64 {
    fn lt_eq(&self, other: &Self) -> (r: bool) {
        *self <= *other
    }

    fn gt_eq(&self, other: &Self) -> (r: bool) {
        *self >= *other
    }
}

} // verus!

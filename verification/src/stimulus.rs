//! Component types whose values run from zero (no light) to a maximum
//! intensity (the highest displayable amount).

use vstd::prelude::*;

verus! {

/// A color component type with a range from zero to its maximum intensity.
pub trait Stimulus: Copy + Sized {
    /// The amount that a component value stands for.
    spec fn spec_value(self) -> nat;

    /// No light.
    spec fn spec_zero() -> Self;

    /// The highest displayable amount.
    spec fn spec_max_intensity() -> Self;

    /// Zero is the amount nothing, every value lies between zero and the
    /// maximum intensity, and a value is determined by its amount.
    proof fn lemma_value(x: Self, y: Self)
        ensures
            Self::spec_zero().spec_value() == 0,
            x.spec_value() <= Self::spec_max_intensity().spec_value(),
            x.spec_value() == y.spec_value() ==> x == y,
    ;

    /// No light.
    fn zero() -> (r: Self)
        ensures
            r == Self::spec_zero(),
    ;

    /// The highest displayable amount.
    fn max_intensity() -> (r: Self)
        ensures
            r == Self::spec_max_intensity(),
    ;
}

/// Converts a component of type `T` into a component of this type.
pub trait FromStimulus<T>: Sized {
    /// The converted value of `x`.
    spec fn spec_from_stimulus(x: T) -> Self;

    /// Converts `x`.
    fn from_stimulus(x: T) -> (r: Self)
        ensures
            r == Self::spec_from_stimulus(x),
    ;
}

/// A component converts to its own type unchanged.
impl<T> FromStimulus<T> for T {
    open spec fn spec_from_stimulus(x: T) -> T {
        x
    }

    fn from_stimulus(x: T) -> (r: T) {
        x
    }
}

impl Stimulus for u8 {
    open spec fn spec_value(self) -> nat {
        self as nat
    }

    open spec fn spec_zero() -> Self {
        0
    }

    open spec fn spec_max_intensity() -> Self {
        u8::MAX
    }

    proof fn lemma_value(x: Self, y: Self) {
    }

    fn zero() -> (r: Self) {
        0
    }

    fn max_intensity() -> (r: Self) {
        u8::MAX
    }
}

impl Stimulus for u16 {
    open spec fn spec_value(self) -> nat {
        self as nat
    }

    open spec fn spec_zero() -> Self {
        0
    }

    open spec fn spec_max_intensity() -> Self {
        u16::MAX
    }

    proof fn lemma_value(x: Self, y: Self) {
    }

    fn zero() -> (r: Self) {
        0
    }

    fn max_intensity() -> (r: Self) {
        u16::MAX
    }
}

impl Stimulus for u32 {
    open spec fn spec_value(self) -> nat {
        self as nat
    }

    open spec fn spec_zero() -> Self {
        0
    }

    open spec fn spec_max_intensity() -> Self {
        u32::MAX
    }

    proof fn lemma_value(x: Self, y: Self) {
    }

    fn zero() -> (r: Self) {
        0
    }

    fn max_intensity() -> (r: Self) {
        u32::MAX
    }
}

impl Stimulus for u64 {
    open spec fn spec_value(self) -> nat {
        self as nat
    }

    open spec fn spec_zero() -> Self {
        0
    }

    open spec fn spec_max_intensity() -> Self {
        u64::MAX
    }

    proof fn lemma_value(x: Self, y: Self) {
    }

    fn zero() -> (r: Self) {
        0
    }

    fn max_intensity() -> (r: Self) {
        u64::MAX
    }
}

} // verus!

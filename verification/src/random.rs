//! Random RGB colors with `u8` components, drawn with `rand`: with every
//! component uniform over all values, or uniform between two colors.

use rand::rngs::StdRng;
use rand::Rng;
use vstd::prelude::*;

use crate::rgb::Rgb;
use crate::stimulus::Stimulus;

verus! {

/// Declares `rand`'s standard random number generator.
#[verifier::external_type_specification]
#[verifier::external_body]
pub struct ExStdRng(StdRng);

/// Calls `rng.gen::<u8>()`, which draws any `u8`; nothing is claimed of which.
#[verifier::external_body]
fn gen_u8(rng: &mut StdRng) -> u8 {
    rng.gen()
}

/// Calls `rng.gen_range(low..high)`, which `rand` documents to return a value
/// of the range and to panic when the range is empty.
#[verifier::external_body]
fn gen_range_u8(rng: &mut StdRng, low: u8, high: u8) -> (v: u8)
    requires
        low < high,
    ensures
        low <= v < high,
{
    rng.gen_range(low..high)
}

/// Calls `rng.gen_range(low..=high)`, which `rand` documents to return a value
/// of the range and to panic when the range is empty.
#[verifier::external_body]
fn gen_range_inclusive_u8(rng: &mut StdRng, low: u8, high: u8) -> (v: u8)
    requires
        low <= high,
    ensures
        low <= v <= high,
{
    rng.gen_range(low..=high)
}

impl<S> Rgb<S, u8> {
    /// A color with each component drawn from all `u8` values.
    pub fn sample_standard(rng: &mut StdRng) -> (c: Self)
        ensures
            c.spec_within_bounds(),
    {
        let red = gen_u8(rng);
        let green = gen_u8(rng);
        let blue = gen_u8(rng);
        Rgb::new(red, green, blue)
    }
}

/// A uniform distribution of colors: each component is drawn independently
/// between the components of two colors.
pub struct UniformRgb<S, T: Stimulus> {
    low: Rgb<S, T>,
    high: Rgb<S, T>,
    inclusive: bool,
}

/// Whether a component range from `low` to `high`, with or without `high`,
/// has a value in it.
pub open spec fn component_range_nonempty(low: nat, high: nat, inclusive: bool) -> bool {
    if inclusive {
        low <= high
    } else {
        low < high
    }
}

/// Whether `v` lies in the component range from `low` to `high`, with or
/// without `high`.
pub open spec fn component_range_contains(low: nat, high: nat, inclusive: bool, v: nat) -> bool {
    low <= v && if inclusive {
        v <= high
    } else {
        v < high
    }
}

impl<S, T: Stimulus> UniformRgb<S, T> {
    /// The lower bound of every component.
    pub closed spec fn spec_low(self) -> Rgb<S, T> {
        self.low
    }

    /// The upper bound of every component.
    pub closed spec fn spec_high(self) -> Rgb<S, T> {
        self.high
    }

    /// Whether a component may take its upper bound.
    pub closed spec fn spec_inclusive(self) -> bool {
        self.inclusive
    }

    /// Whether `c` is a color that the distribution can give.
    pub open spec fn spec_contains(self, c: Rgb<S, T>) -> bool {
        let (low, high, inclusive) = (self.spec_low(), self.spec_high(), self.spec_inclusive());
        &&& component_range_contains(
            low.red.spec_value(),
            high.red.spec_value(),
            inclusive,
            c.red.spec_value(),
        )
        &&& component_range_contains(
            low.green.spec_value(),
            high.green.spec_value(),
            inclusive,
            c.green.spec_value(),
        )
        &&& component_range_contains(
            low.blue.spec_value(),
            high.blue.spec_value(),
            inclusive,
            c.blue.spec_value(),
        )
    }

    /// Every distribution has a color to give: no component range is empty.
    #[verifier::type_invariant]
    spec fn nonempty(self) -> bool {
        &&& component_range_nonempty(
            self.low.red.spec_value(),
            self.high.red.spec_value(),
            self.inclusive,
        )
        &&& component_range_nonempty(
            self.low.green.spec_value(),
            self.high.green.spec_value(),
            self.inclusive,
        )
        &&& component_range_nonempty(
            self.low.blue.spec_value(),
            self.high.blue.spec_value(),
            self.inclusive,
        )
    }
}

impl<S> UniformRgb<S, u8> {
    /// Colors with each component from the low one up to, but not including,
    /// the high one.
    pub fn new(low: Rgb<S, u8>, high: Rgb<S, u8>) -> (u: Self)
        requires
            low.red < high.red,
            low.green < high.green,
            low.blue < high.blue,
        ensures
            u.spec_low() == low,
            u.spec_high() == high,
            !u.spec_inclusive(),
    {
        UniformRgb { low, high, inclusive: false }
    }

    /// Colors with each component from the low one up to and including the
    /// high one.
    pub fn new_inclusive(low: Rgb<S, u8>, high: Rgb<S, u8>) -> (u: Self)
        requires
            low.red <= high.red,
            low.green <= high.green,
            low.blue <= high.blue,
        ensures
            u.spec_low() == low,
            u.spec_high() == high,
            u.spec_inclusive(),
    {
        UniformRgb { low, high, inclusive: true }
    }

    /// Draws a color from the distribution.
    pub fn sample(&self, rng: &mut StdRng) -> (c: Rgb<S, u8>)
        ensures
            self.spec_contains(c),
    {
        proof {
            use_type_invariant(self);
        }
        if self.inclusive {
            let red = gen_range_inclusive_u8(rng, self.low.red, self.high.red);
            let green = gen_range_inclusive_u8(rng, self.low.green, self.high.green);
            let blue = gen_range_inclusive_u8(rng, self.low.blue, self.high.blue);
            Rgb::new(red, green, blue)
        } else {
            let red = gen_range_u8(rng, self.low.red, self.high.red);
            let green = gen_range_u8(rng, self.low.green, self.high.green);
            let blue = gen_range_u8(rng, self.low.blue, self.high.blue);
            Rgb::new(red, green, blue)
        }
    }
}

} // verus!

//! RGB standards, as types that only mark what an RGB value means, and the
//! transfer functions between linear and encoded component values.

use core::marker::PhantomData;
use vstd::prelude::*;

verus! {

/// A set of primaries and a white point: the space that RGB values live in.
pub trait RgbSpace {}

/// A transfer-function and primaries pairing that describes how the RGB values
/// of a color are to be read.
pub trait RgbStandard {
    /// The RGB space of the standard.
    type Space: RgbSpace;

    /// The transfer function that encodes linear light into the stored values.
    type TransferFn;
}

/// Converts an encoded component of type `E` into a linear one of type `L`.
pub trait IntoLinear<L, E> {
    /// The linear value of `x`.
    spec fn spec_into_linear(x: E) -> L;

    /// Decodes `x` into linear light.
    fn into_linear(x: E) -> (l: L)
        ensures
            l == Self::spec_into_linear(x),
    ;
}

/// Converts a linear component of type `L` into an encoded one of type `E`.
pub trait FromLinear<L, E> {
    /// The encoded value of `x`.
    spec fn spec_from_linear(x: L) -> E;

    /// Encodes the linear value `x`.
    fn from_linear(x: L) -> (e: E)
        ensures
            e == Self::spec_from_linear(x),
    ;
}

/// The sRGB standard and space, with the sRGB transfer function.
#[derive(Clone, Copy, Debug, PartialEq, Eq)]
pub struct Srgb;

/// The linear version of an RGB space: its values are proportional to light.
#[derive(Debug, PartialEq, Eq)]
pub struct Linear<S>(pub PhantomData<S>);

impl<S> Clone for Linear<S> {
    fn clone(&self) -> (r: Self)
        ensures
            r == *self,
    {
        Linear(PhantomData)
    }
}

impl<S> Copy for Linear<S> {}

/// The transfer function of linear standards, which leaves values as they are.
#[derive(Clone, Copy, Debug, PartialEq, Eq)]
pub struct LinearFn;

impl RgbSpace for Srgb {}

impl RgbStandard for Srgb {
    type Space = Srgb;

    type TransferFn = Srgb;
}

impl<S: RgbSpace> RgbStandard for Linear<S> {
    type Space = S;

    type TransferFn = LinearFn;
}

impl<T> IntoLinear<T, T> for LinearFn {
    open spec fn spec_into_linear(x: T) -> T {
        x
    }

    fn into_linear(x: T) -> (l: T) {
        x
    }
}

impl<T> FromLinear<T, T> for LinearFn {
    open spec fn spec_from_linear(x: T) -> T {
        x
    }

    fn from_linear(x: T) -> (e: T) {
        x
    }
}

} // verus!

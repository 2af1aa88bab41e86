//! The RGB color type and the operations that read or build its components.

use core::marker::PhantomData;
use vstd::prelude::*;

use crate::alpha::Alpha;
use crate::channels::ComponentOrder;
use crate::num::{self, clamp_value, PartialCmp};
use crate::encoding::{FromLinear, IntoLinear, Linear, RgbSpace, RgbStandard};
use crate::stimulus::{FromStimulus, Stimulus};
use crate::traits::{Clamp, ClampAssign, IsWithinBounds};

verus! {

/// Generic RGB: an additive mixture of red, green and blue light. `S` is the
/// RGB standard that gives the values their meaning; it is only a marker.
#[derive(Debug)]
pub struct Rgb<S, T> {
    /// The amount of red light, where zero is no red light and the component
    /// type's maximum intensity is the highest displayable amount.
    pub red: T,
    /// The amount of green light.
    pub green: T,
    /// The amount of blue light.
    pub blue: T,
    /// The RGB standard.
    pub standard: PhantomData<S>,
}

impl<S, T: Copy> Copy for Rgb<S, T> {}

impl<S, T: Clone> Clone for Rgb<S, T> {
    fn clone(&self) -> (c: Rgb<S, T>)
        ensures
            cloned::<T>(self.red, c.red),
            cloned::<T>(self.green, c.green),
            cloned::<T>(self.blue, c.blue),
    {
        Rgb {
            red: self.red.clone(),
            green: self.green.clone(),
            blue: self.blue.clone(),
            standard: PhantomData,
        }
    }
}

/// RGB with an alpha component.
pub type Rgba<S, T> = Alpha<Rgb<S, T>, T>;

impl<S, T> Rgb<S, T> {
    /// The color with the given components.
    pub open spec fn spec_new(red: T, green: T, blue: T) -> Rgb<S, T> {
        Rgb { red, green, blue, standard: PhantomData }
    }

    /// Create an RGB color.
    pub fn new(red: T, green: T, blue: T) -> (c: Rgb<S, T>)
        ensures
            c == Self::spec_new(red, green, blue),
    {
        Rgb { red, green, blue, standard: PhantomData }
    }

    /// Convert into another component type.
    pub fn into_format<U: FromStimulus<T>>(self) -> (c: Rgb<S, U>)
        ensures
            c == Rgb::<S, U>::spec_new(
                U::spec_from_stimulus(self.red),
                U::spec_from_stimulus(self.green),
                U::spec_from_stimulus(self.blue),
            ),
    {
        Rgb {
            red: U::from_stimulus(self.red),
            green: U::from_stimulus(self.green),
            blue: U::from_stimulus(self.blue),
            standard: PhantomData,
        }
    }

    /// Convert from another component type.
    pub fn from_format<U>(color: Rgb<S, U>) -> (c: Self) where T: FromStimulus<U>
        ensures
            c == Self::spec_new(
                T::spec_from_stimulus(color.red),
                T::spec_from_stimulus(color.green),
                T::spec_from_stimulus(color.blue),
            ),
    {
        color.into_format()
    }

    /// Convert to a `(red, green, blue)` tuple.
    pub fn into_components(self) -> (t: (T, T, T))
        ensures
            t == (self.red, self.green, self.blue),
    {
        (self.red, self.green, self.blue)
    }

    /// Convert from a `(red, green, blue)` tuple.
    pub fn from_components(components: (T, T, T)) -> (c: Self)
        ensures
            c == Self::spec_new(components.0, components.1, components.2),
    {
        let (red, green, blue) = components;
        Self::new(red, green, blue)
    }
}

impl<S: RgbStandard, T> Rgb<S, T> {
    /// Convert the color to linear RGB, decoding each component with the
    /// standard's transfer function.
    pub fn into_linear<U>(self) -> (c: Rgb<Linear<S::Space>, U>) where
        S::TransferFn: IntoLinear<U, T>,

        ensures
            c == Rgb::<Linear<S::Space>, U>::spec_new(
                S::TransferFn::spec_into_linear(self.red),
                S::TransferFn::spec_into_linear(self.green),
                S::TransferFn::spec_into_linear(self.blue),
            ),
    {
        Rgb::new(
            S::TransferFn::into_linear(self.red),
            S::TransferFn::into_linear(self.green),
            S::TransferFn::into_linear(self.blue),
        )
    }

    /// Convert linear RGB to non-linear RGB, encoding each component with the
    /// standard's transfer function.
    pub fn from_linear<U>(color: Rgb<Linear<S::Space>, U>) -> (c: Self) where
        S::TransferFn: FromLinear<U, T>,

        ensures
            c == Self::spec_new(
                S::TransferFn::spec_from_linear(color.red),
                S::TransferFn::spec_from_linear(color.green),
                S::TransferFn::spec_from_linear(color.blue),
            ),
    {
        Rgb::new(
            S::TransferFn::from_linear(color.red),
            S::TransferFn::from_linear(color.green),
            S::TransferFn::from_linear(color.blue),
        )
    }
}

impl<S: RgbSpace, T> Rgb<Linear<S>, T> {
    /// Convert a linear color to a different encoding.
    pub fn into_encoding<U, St>(self) -> (c: Rgb<St, U>) where
        St: RgbStandard<Space = S>,
        St::TransferFn: FromLinear<T, U>,

        ensures
            c == Rgb::<St, U>::spec_new(
                St::TransferFn::spec_from_linear(self.red),
                St::TransferFn::spec_from_linear(self.green),
                St::TransferFn::spec_from_linear(self.blue),
            ),
    {
        Rgb::<St, U>::from_linear(self)
    }

    /// Convert linear RGB from a different encoding.
    pub fn from_encoding<U, St>(color: Rgb<St, U>) -> (c: Self) where
        St: RgbStandard<Space = S>,
        St::TransferFn: IntoLinear<T, U>,

        ensures
            c == Self::spec_new(
                St::TransferFn::spec_into_linear(color.red),
                St::TransferFn::spec_into_linear(color.green),
                St::TransferFn::spec_into_linear(color.blue),
            ),
    {
        color.into_linear()
    }
}

impl<S, T: Stimulus> Rgb<S, T> {
    /// Whether every component is at most the maximum intensity (components
    /// are never below zero).
    pub open spec fn spec_within_bounds(self) -> bool {
        &&& self.red.spec_value() <= T::spec_max_intensity().spec_value()
        &&& self.green.spec_value() <= T::spec_max_intensity().spec_value()
        &&& self.blue.spec_value() <= T::spec_max_intensity().spec_value()
    }

    /// Return the `red` value minimum.
    pub fn min_red() -> (r: T)
        ensures
            r == T::spec_zero(),
    {
        T::zero()
    }

    /// Return the `red` value maximum.
    pub fn max_red() -> (r: T)
        ensures
            r == T::spec_max_intensity(),
    {
        T::max_intensity()
    }

    /// Return the `green` value minimum.
    pub fn min_green() -> (r: T)
        ensures
            r == T::spec_zero(),
    {
        T::zero()
    }

    /// Return the `green` value maximum.
    pub fn max_green() -> (r: T)
        ensures
            r == T::spec_max_intensity(),
    {
        T::max_intensity()
    }

    /// Return the `blue` value minimum.
    pub fn min_blue() -> (r: T)
        ensures
            r == T::spec_zero(),
    {
        T::zero()
    }

    /// Return the `blue` value maximum.
    pub fn max_blue() -> (r: T)
        ensures
            r == T::spec_max_intensity(),
    {
        T::max_intensity()
    }
}

/// The default color is black: every component at its minimum.
impl<S, T: Stimulus> Default for Rgb<S, T> {
    fn default() -> (c: Rgb<S, T>)
        ensures
            c == Rgb::<S, T>::spec_new(T::spec_zero(), T::spec_zero(), T::spec_zero()),
    {
        Rgb::new(Self::min_red(), Self::min_green(), Self::min_blue())
    }
}

impl<S, T: PartialCmp> IsWithinBounds for Rgb<S, T> {
    fn is_within_bounds(&self) -> (r: bool)
        ensures
            r == self.spec_within_bounds(),
    {
        proof {
            T::lemma_value(T::spec_zero(), T::spec_zero());
        }
        let red = self.red.gt_eq(&Self::min_red()) && self.red.lt_eq(&Self::max_red());
        let green = self.green.gt_eq(&Self::min_green()) && self.green.lt_eq(&Self::max_green());
        let blue = self.blue.gt_eq(&Self::min_blue()) && self.blue.lt_eq(&Self::max_blue());
        red && green && blue
    }
}

impl<S, T: num::Clamp> Clamp for Rgb<S, T> {
    fn clamp(self) -> (c: Self)
        ensures
            c.red.spec_value() == clamp_value(self.red.spec_value(), 0, T::spec_max_intensity().spec_value()),
            c.green.spec_value() == clamp_value(
                self.green.spec_value(),
                0,
                T::spec_max_intensity().spec_value(),
            ),
            c.blue.spec_value() == clamp_value(self.blue.spec_value(), 0, T::spec_max_intensity().spec_value()),
    {
        proof {
            T::lemma_value(T::spec_zero(), T::spec_zero());
        }
        Self::new(
            num::Clamp::clamp(self.red, Self::min_red(), Self::max_red()),
            num::Clamp::clamp(self.green, Self::min_green(), Self::max_green()),
            num::Clamp::clamp(self.blue, Self::min_blue(), Self::max_blue()),
        )
    }
}

impl<S, T: num::Clamp> ClampAssign for Rgb<S, T> {
    fn clamp_assign(&mut self)
        ensures
            final(self).red.spec_value() == clamp_value(
                old(self).red.spec_value(),
                0,
                T::spec_max_intensity().spec_value(),
            ),
            final(self).green.spec_value() == clamp_value(
                old(self).green.spec_value(),
                0,
                T::spec_max_intensity().spec_value(),
            ),
            final(self).blue.spec_value() == clamp_value(
                old(self).blue.spec_value(),
                0,
                T::spec_max_intensity().spec_value(),
            ),
    {
        proof {
            T::lemma_value(T::spec_zero(), T::spec_zero());
        }
        self.red = num::Clamp::clamp(self.red, Self::min_red(), Self::max_red());
        self.green = num::Clamp::clamp(self.green, Self::min_green(), Self::max_green());
        self.blue = num::Clamp::clamp(self.blue, Self::min_blue(), Self::max_blue());
    }
}

/// [`Rgba`] operations.
impl<S, T, A> Alpha<Rgb<S, T>, A> {
    /// The color with the given components and alpha.
    pub open spec fn spec_new(red: T, green: T, blue: T, alpha: A) -> Self {
        Alpha { color: Rgb::spec_new(red, green, blue), alpha }
    }

    /// Non-linear RGB with transparency.
    pub fn new(red: T, green: T, blue: T, alpha: A) -> (c: Self)
        ensures
            c == Self::spec_new(red, green, blue, alpha),
    {
        Alpha { color: Rgb::new(red, green, blue), alpha }
    }

    /// Convert into other component types.
    pub fn into_format<U, B>(self) -> (c: Alpha<Rgb<S, U>, B>) where
        U: FromStimulus<T>,
        B: FromStimulus<A>,

        ensures
            c == Alpha::<Rgb<S, U>, B>::spec_new(
                U::spec_from_stimulus(self.color.red),
                U::spec_from_stimulus(self.color.green),
                U::spec_from_stimulus(self.color.blue),
                B::spec_from_stimulus(self.alpha),
            ),
    {
        Alpha { color: self.color.into_format(), alpha: B::from_stimulus(self.alpha) }
    }

    /// Convert from other component types.
    pub fn from_format<U, B>(color: Alpha<Rgb<S, U>, B>) -> (c: Self) where
        T: FromStimulus<U>,
        A: FromStimulus<B>,

        ensures
            c == Self::spec_new(
                T::spec_from_stimulus(color.color.red),
                T::spec_from_stimulus(color.color.green),
                T::spec_from_stimulus(color.color.blue),
                A::spec_from_stimulus(color.alpha),
            ),
    {
        color.into_format()
    }

    /// Convert to a `(red, green, blue, alpha)` tuple.
    pub fn into_components(self) -> (t: (T, T, T, A))
        ensures
            t == (self.color.red, self.color.green, self.color.blue, self.alpha),
    {
        (self.color.red, self.color.green, self.color.blue, self.alpha)
    }

    /// Convert from a `(red, green, blue, alpha)` tuple.
    pub fn from_components(components: (T, T, T, A)) -> (c: Self)
        ensures
            c == Self::spec_new(components.0, components.1, components.2, components.3),
    {
        let (red, green, blue, alpha) = components;
        Self::new(red, green, blue, alpha)
    }
}

impl<S> Rgb<S, u8> {
    /// Convert to a packed `u32` with specifiable component order, with the
    /// alpha channel fully opaque.
    pub fn into_u32<O>(self) -> (p: u32) where O: ComponentOrder<Rgba<S, u8>, u32>
        ensures
            p == O::spec_pack(Alpha { color: self, alpha: 255u8 }),
    {
        O::pack(Alpha { color: self, alpha: u8::max_intensity() })
    }

    /// Convert from a packed `u32` with specifiable component order; the alpha
    /// channel is dropped.
    pub fn from_u32<O>(color: u32) -> (c: Self) where O: ComponentOrder<Rgba<S, u8>, u32>
        ensures
            c == O::spec_unpack(color).color,
    {
        O::unpack(color).color
    }
}

impl<S: RgbStandard, T, A> Alpha<Rgb<S, T>, A> {
    /// Convert the color to linear RGB with transparency; the alpha is
    /// converted as a plain component.
    pub fn into_linear<U, B>(self) -> (c: Alpha<Rgb<Linear<S::Space>, U>, B>) where
        S::TransferFn: IntoLinear<U, T>,
        B: FromStimulus<A>,

        ensures
            c == Alpha::<Rgb<Linear<S::Space>, U>, B>::spec_new(
                S::TransferFn::spec_into_linear(self.color.red),
                S::TransferFn::spec_into_linear(self.color.green),
                S::TransferFn::spec_into_linear(self.color.blue),
                B::spec_from_stimulus(self.alpha),
            ),
    {
        Alpha { color: self.color.into_linear(), alpha: B::from_stimulus(self.alpha) }
    }

    /// Convert linear RGB to non-linear RGB with transparency; the alpha is
    /// converted as a plain component.
    pub fn from_linear<U, B>(color: Alpha<Rgb<Linear<S::Space>, U>, B>) -> (c: Self) where
        S::TransferFn: FromLinear<U, T>,
        A: FromStimulus<B>,

        ensures
            c == Self::spec_new(
                S::TransferFn::spec_from_linear(color.color.red),
                S::TransferFn::spec_from_linear(color.color.green),
                S::TransferFn::spec_from_linear(color.color.blue),
                A::spec_from_stimulus(color.alpha),
            ),
    {
        Alpha { color: Rgb::from_linear(color.color), alpha: A::from_stimulus(color.alpha) }
    }
}

impl<S: RgbSpace, T, A> Alpha<Rgb<Linear<S>, T>, A> {
    /// Convert a linear color to a different encoding with transparency.
    pub fn into_encoding<U, B, St>(self) -> (c: Alpha<Rgb<St, U>, B>) where
        St: RgbStandard<Space = S>,
        St::TransferFn: FromLinear<T, U>,
        B: FromStimulus<A>,

        ensures
            c == Alpha::<Rgb<St, U>, B>::spec_new(
                St::TransferFn::spec_from_linear(self.color.red),
                St::TransferFn::spec_from_linear(self.color.green),
                St::TransferFn::spec_from_linear(self.color.blue),
                B::spec_from_stimulus(self.alpha),
            ),
    {
        Alpha::<Rgb<St, U>, B>::from_linear(self)
    }

    /// Convert RGB from a different encoding to linear with transparency.
    pub fn from_encoding<U, B, St>(color: Alpha<Rgb<St, U>, B>) -> (c: Self) where
        St: RgbStandard<Space = S>,
        St::TransferFn: IntoLinear<T, U>,
        A: FromStimulus<B>,

        ensures
            c == Self::spec_new(
                St::TransferFn::spec_into_linear(color.color.red),
                St::TransferFn::spec_into_linear(color.color.green),
                St::TransferFn::spec_into_linear(color.color.blue),
                A::spec_from_stimulus(color.alpha),
            ),
    {
        color.into_linear()
    }
}

impl<S> Alpha<Rgb<S, u8>, u8> {
    /// Convert to a packed `u32` with specifiable component order.
    pub fn into_u32<O>(self) -> (p: u32) where O: ComponentOrder<Rgba<S, u8>, u32>
        ensures
            p == O::spec_pack(self),
    {
        O::pack(self)
    }

    /// Convert from a packed `u32` with specifiable component order.
    pub fn from_u32<O>(color: u32) -> (c: Self) where O: ComponentOrder<Rgba<S, u8>, u32>
        ensures
            c == O::spec_unpack(color),
    {
        O::unpack(color)
    }
}

/// Splitting a color into its components and joining them again gives the
/// color back, and joining components and splitting the color gives them back;
/// for RGB and for RGB with alpha.
pub proof fn lemma_components_round_trip<S, T, A>(
    c: Rgb<S, T>,
    t: (T, T, T),
    ca: Alpha<Rgb<S, T>, A>,
    ta: (T, T, T, A),
)
    ensures
        Rgb::<S, T>::spec_new(c.red, c.green, c.blue) == c,
        ({
            let d = Rgb::<S, T>::spec_new(t.0, t.1, t.2);
            (d.red, d.green, d.blue) == t
        }),
        Alpha::<Rgb<S, T>, A>::spec_new(ca.color.red, ca.color.green, ca.color.blue, ca.alpha)
            == ca,
        ({
            let d = Alpha::<Rgb<S, T>, A>::spec_new(ta.0, ta.1, ta.2, ta.3);
            (d.color.red, d.color.green, d.color.blue, d.alpha) == ta
        }),
{
}

/// Packing an `Rgb` into a `u32` in any channel order and unpacking it again
/// gives the color back (the opaque alpha that packing adds is dropped).
pub proof fn lemma_rgb_u32_round_trip<S, O: ComponentOrder<Rgba<S, u8>, u32>>(c: Rgb<S, u8>)
    ensures
        O::spec_unpack(O::spec_pack(Alpha { color: c, alpha: 255u8 })).color == c,
{
    O::lemma_round_trip(Alpha { color: c, alpha: 255u8 }, 0);
}

/// The transfer function of a linear standard is the identity: decoding a
/// linear color into linear light and encoding linear light back into it leave
/// every component as it is (so order between colors and equal channels are
/// kept).
pub proof fn lemma_linear_transfer_unchanged<Sp: RgbSpace, T>(c: Rgb<Linear<Sp>, T>)
    ensures
        Rgb::<Linear<Sp>, T>::spec_new(
            <<Linear<Sp> as RgbStandard>::TransferFn as IntoLinear<T, T>>::spec_into_linear(c.red),
            <<Linear<Sp> as RgbStandard>::TransferFn as IntoLinear<T, T>>::spec_into_linear(
                c.green,
            ),
            <<Linear<Sp> as RgbStandard>::TransferFn as IntoLinear<T, T>>::spec_into_linear(c.blue),
        ) == c,
        Rgb::<Linear<Sp>, T>::spec_new(
            <<Linear<Sp> as RgbStandard>::TransferFn as FromLinear<T, T>>::spec_from_linear(c.red),
            <<Linear<Sp> as RgbStandard>::TransferFn as FromLinear<T, T>>::spec_from_linear(
                c.green,
            ),
            <<Linear<Sp> as RgbStandard>::TransferFn as FromLinear<T, T>>::spec_from_linear(c.blue),
        ) == c,
{
}

/// A clamped color is within bounds, and clamping a color that is within
/// bounds leaves it unchanged: `d` is what clamping `c` gives.
pub proof fn lemma_clamp_law<S, T: Stimulus>(c: Rgb<S, T>, d: Rgb<S, T>)
    requires
        d.red.spec_value() == clamp_value(
            c.red.spec_value(),
            0,
            T::spec_max_intensity().spec_value(),
        ),
        d.green.spec_value() == clamp_value(
            c.green.spec_value(),
            0,
            T::spec_max_intensity().spec_value(),
        ),
        d.blue.spec_value() == clamp_value(
            c.blue.spec_value(),
            0,
            T::spec_max_intensity().spec_value(),
        ),
    ensures
        d.spec_within_bounds(),
        c.spec_within_bounds() ==> d == c,
{
    T::lemma_value(c.red, d.red);
    T::lemma_value(c.green, d.green);
    T::lemma_value(c.blue, d.blue);
}

/// Components cannot leave their range: every color is within bounds.
pub proof fn lemma_always_within_bounds<S, T: Stimulus>(c: Rgb<S, T>)
    ensures
        c.spec_within_bounds(),
{
    T::lemma_value(c.red, c.red);
    T::lemma_value(c.green, c.green);
    T::lemma_value(c.blue, c.blue);
}

} // verus!

//! Conversions between colors, component tuples and packed `u32` values.
//! A `u32` holds an `Rgb` in ARGB order and an `Rgba` in RGBA order; an `Rgb`
//! packed with an alpha channel is fully opaque, and unpacking into an `Rgb`
//! drops the alpha channel.

use vstd::prelude::*;
use vstd::std_specs::convert::FromSpec;
use vstd::std_specs::convert::FromSpecImpl;

use crate::alpha::Alpha;
use crate::cast::Packed;
use crate::stimulus::Stimulus;
use crate::channels::{self, ComponentOrder};
use crate::rgb::{Rgb, Rgba};

verus! {

impl<S, T> From<(T, T, T)> for Rgb<S, T> {
    fn from(components: (T, T, T)) -> (c: Self) {
        Self::from_components(components)
    }
}

impl<S, T> FromSpecImpl<(T, T, T)> for Rgb<S, T> {
    open spec fn obeys_from_spec() -> bool {
        true
    }

    open spec fn from_spec(components: (T, T, T)) -> Self {
        Rgb::spec_new(components.0, components.1, components.2)
    }
}

impl<S, T> From<Rgb<S, T>> for (T, T, T) {
    fn from(color: Rgb<S, T>) -> (t: (T, T, T)) {
        color.into_components()
    }
}

impl<S, T> FromSpecImpl<Rgb<S, T>> for (T, T, T) {
    open spec fn obeys_from_spec() -> bool {
        true
    }

    open spec fn from_spec(color: Rgb<S, T>) -> (T, T, T) {
        (color.red, color.green, color.blue)
    }
}

impl<S, T, A> From<(T, T, T, A)> for Alpha<Rgb<S, T>, A> {
    fn from(components: (T, T, T, A)) -> (c: Self) {
        Self::from_components(components)
    }
}

impl<S, T, A> FromSpecImpl<(T, T, T, A)> for Alpha<Rgb<S, T>, A> {
    open spec fn obeys_from_spec() -> bool {
        true
    }

    open spec fn from_spec(components: (T, T, T, A)) -> Self {
        Alpha::<Rgb<S, T>, A>::spec_new(components.0, components.1, components.2, components.3)
    }
}

impl<S, T, A> From<Alpha<Rgb<S, T>, A>> for (T, T, T, A) {
    fn from(color: Alpha<Rgb<S, T>, A>) -> (t: (T, T, T, A)) {
        color.into_components()
    }
}

impl<S, T, A> FromSpecImpl<Alpha<Rgb<S, T>, A>> for (T, T, T, A) {
    open spec fn obeys_from_spec() -> bool {
        true
    }

    open spec fn from_spec(color: Alpha<Rgb<S, T>, A>) -> (T, T, T, A) {
        (color.color.red, color.color.green, color.color.blue, color.alpha)
    }
}

impl<S> From<u32> for Rgb<S, u8> {
    fn from(color: u32) -> (c: Self) {
        Self::from_u32::<channels::Argb>(color)
    }
}

impl<S> FromSpecImpl<u32> for Rgb<S, u8> {
    open spec fn obeys_from_spec() -> bool {
        true
    }

    open spec fn from_spec(color: u32) -> Self {
        <channels::Argb as ComponentOrder<Rgba<S, u8>, u32>>::spec_unpack(color).color
    }
}

impl<S> From<u32> for Alpha<Rgb<S, u8>, u8> {
    fn from(color: u32) -> (c: Self) {
        Self::from_u32::<channels::Rgba>(color)
    }
}

impl<S> FromSpecImpl<u32> for Alpha<Rgb<S, u8>, u8> {
    open spec fn obeys_from_spec() -> bool {
        true
    }

    open spec fn from_spec(color: u32) -> Self {
        <channels::Rgba as ComponentOrder<Rgba<S, u8>, u32>>::spec_unpack(color)
    }
}

impl<S> From<Rgb<S, u8>> for u32 {
    fn from(color: Rgb<S, u8>) -> (p: u32) {
        Rgb::into_u32::<channels::Argb>(color)
    }
}

impl<S> FromSpecImpl<Rgb<S, u8>> for u32 {
    open spec fn obeys_from_spec() -> bool {
        true
    }

    open spec fn from_spec(color: Rgb<S, u8>) -> u32 {
        <channels::Argb as ComponentOrder<Rgba<S, u8>, u32>>::spec_pack(
            Alpha { color, alpha: 255u8 },
        )
    }
}

impl<S> From<Alpha<Rgb<S, u8>, u8>> for u32 {
    fn from(color: Alpha<Rgb<S, u8>, u8>) -> (p: u32) {
        Alpha::into_u32::<channels::Rgba>(color)
    }
}

impl<S> FromSpecImpl<Alpha<Rgb<S, u8>, u8>> for u32 {
    open spec fn obeys_from_spec() -> bool {
        true
    }

    open spec fn from_spec(color: Alpha<Rgb<S, u8>, u8>) -> u32 {
        <channels::Rgba as ComponentOrder<Rgba<S, u8>, u32>>::spec_pack(color)
    }
}

impl<S, T: Stimulus, O, P> From<Rgb<S, T>> for Packed<O, P> where
    O: ComponentOrder<Rgba<S, T>, P>,
 {
    fn from(color: Rgb<S, T>) -> (p: Self) {
        Packed::pack(Alpha { color, alpha: T::max_intensity() })
    }
}

impl<S, T: Stimulus, O, P> FromSpecImpl<Rgb<S, T>> for Packed<O, P> where
    O: ComponentOrder<Rgba<S, T>, P>,
 {
    open spec fn obeys_from_spec() -> bool {
        true
    }

    open spec fn from_spec(color: Rgb<S, T>) -> Self {
        Packed {
            color: O::spec_pack(Alpha { color, alpha: T::spec_max_intensity() }),
            channel_order: core::marker::PhantomData,
        }
    }
}

impl<S, T, O, P> From<Alpha<Rgb<S, T>, T>> for Packed<O, P> where
    O: ComponentOrder<Rgba<S, T>, P>,
 {
    fn from(color: Alpha<Rgb<S, T>, T>) -> (p: Self) {
        Packed::pack(color)
    }
}

impl<S, T, O, P> FromSpecImpl<Alpha<Rgb<S, T>, T>> for Packed<O, P> where
    O: ComponentOrder<Rgba<S, T>, P>,
 {
    open spec fn obeys_from_spec() -> bool {
        true
    }

    open spec fn from_spec(color: Alpha<Rgb<S, T>, T>) -> Self {
        Packed { color: O::spec_pack(color), channel_order: core::marker::PhantomData }
    }
}

impl<S, O, P> From<Packed<O, P>> for Rgb<S, u8> where O: ComponentOrder<Rgba<S, u8>, P> {
    fn from(packed: Packed<O, P>) -> (c: Self) {
        let rgba: Rgba<S, u8> = packed.unpack();
        rgba.color
    }
}

impl<S, O, P> FromSpecImpl<Packed<O, P>> for Rgb<S, u8> where O: ComponentOrder<Rgba<S, u8>, P> {
    open spec fn obeys_from_spec() -> bool {
        true
    }

    open spec fn from_spec(packed: Packed<O, P>) -> Self {
        O::spec_unpack(packed.color).color
    }
}

impl<S, T, O, P> From<Packed<O, P>> for Alpha<Rgb<S, T>, T> where
    O: ComponentOrder<Rgba<S, T>, P>,
 {
    fn from(packed: Packed<O, P>) -> (c: Self) {
        packed.unpack()
    }
}

impl<S, T, O, P> FromSpecImpl<Packed<O, P>> for Alpha<Rgb<S, T>, T> where
    O: ComponentOrder<Rgba<S, T>, P>,
 {
    open spec fn obeys_from_spec() -> bool {
        true
    }

    open spec fn from_spec(packed: Packed<O, P>) -> Self {
        O::spec_unpack(packed.color)
    }
}

/// Converting a tuple `(r, g, b)` into an `Rgb` gives the color whose red,
/// green and blue are `r`, `g` and `b`, and converting an `Rgb` into a tuple
/// gives `(red, green, blue)`: the `From` conversions agree with
/// `from_components` and `into_components`, and they obey their specification.
pub proof fn lemma_rgb_tuple_conversions<S, T>(t: (T, T, T), c: Rgb<S, T>)
    ensures
        <Rgb<S, T> as FromSpec<(T, T, T)>>::obeys_from_spec(),
        <(T, T, T) as FromSpec<Rgb<S, T>>>::obeys_from_spec(),
        ({
            let d = <Rgb<S, T> as FromSpec<(T, T, T)>>::from_spec(t);
            d.red == t.0 && d.green == t.1 && d.blue == t.2
        }),
        ({
            let u = <(T, T, T) as FromSpec<Rgb<S, T>>>::from_spec(c);
            u.0 == c.red && u.1 == c.green && u.2 == c.blue
        }),
{
}

/// Converting a tuple `(r, g, b, a)` into an `Rgba` gives the color whose red,
/// green, blue and alpha are `r`, `g`, `b` and `a`, and converting an `Rgba`
/// into a tuple gives `(red, green, blue, alpha)`: the `From` conversions agree
/// with `from_components` and `into_components`, and they obey their
/// specification.
pub proof fn lemma_rgba_tuple_conversions<S, T, A>(t: (T, T, T, A), c: Alpha<Rgb<S, T>, A>)
    ensures
        <Alpha<Rgb<S, T>, A> as FromSpec<(T, T, T, A)>>::obeys_from_spec(),
        <(T, T, T, A) as FromSpec<Alpha<Rgb<S, T>, A>>>::obeys_from_spec(),
        ({
            let d = <Alpha<Rgb<S, T>, A> as FromSpec<(T, T, T, A)>>::from_spec(t);
            d.color.red == t.0 && d.color.green == t.1 && d.color.blue == t.2 && d.alpha == t.3
        }),
        ({
            let u = <(T, T, T, A) as FromSpec<Alpha<Rgb<S, T>, A>>>::from_spec(c);
            u.0 == c.color.red && u.1 == c.color.green && u.2 == c.color.blue && u.3 == c.alpha
        }),
{
}

/// A `u32` holds an `Rgb` as `0xAARRGGBB` with an opaque alpha byte, and an
/// `Rgba` as `0xRRGGBBAA`: converting a color gives that number, and converting
/// a number gives the color with those bytes.
pub proof fn lemma_u32_layouts<S>(rgb: Rgb<S, u8>, rgba: Alpha<Rgb<S, u8>, u8>, p: u32)
    ensures
        <u32 as FromSpec<Rgb<S, u8>>>::obeys_from_spec(),
        <Rgb<S, u8> as FromSpec<u32>>::obeys_from_spec(),
        <u32 as FromSpec<Alpha<Rgb<S, u8>, u8>>>::obeys_from_spec(),
        <Alpha<Rgb<S, u8>, u8> as FromSpec<u32>>::obeys_from_spec(),
        <u32 as FromSpec<Rgb<S, u8>>>::from_spec(rgb) == 0xFF00_0000 + rgb.red * 0x1_0000
            + rgb.green * 0x100 + rgb.blue,
        <u32 as FromSpec<Alpha<Rgb<S, u8>, u8>>>::from_spec(rgba) == rgba.color.red * 0x100_0000
            + rgba.color.green * 0x1_0000 + rgba.color.blue * 0x100 + rgba.alpha,
        ({
            let c = <Rgb<S, u8> as FromSpec<u32>>::from_spec(p);
            &&& c.red == (p / 0x1_0000) % 0x100
            &&& c.green == (p / 0x100) % 0x100
            &&& c.blue == p % 0x100
        }),
        ({
            let c = <Alpha<Rgb<S, u8>, u8> as FromSpec<u32>>::from_spec(p);
            &&& c.color.red == p / 0x100_0000
            &&& c.color.green == (p / 0x1_0000) % 0x100
            &&& c.color.blue == (p / 0x100) % 0x100
            &&& c.alpha == p % 0x100
        }),
{
}

/// Repacking the color bytes of a `u32` with an opaque alpha byte.
proof fn lemma_opaque_repack(packed: u32)
    ensures
        ({
            let (a, r, g, b) = channels::spec_unpack_bytes(packed);
            channels::spec_pack_bytes(255u8, r, g, b) == packed % 0x100_0000 + 0xFF00_0000
        }),
{
    channels::lemma_pack_unpack_bytes(packed);
    let (a, r, g, b) = channels::spec_unpack_bytes(packed);
    assert(packed == a * 0x100_0000 + r * 0x1_0000 + g * 0x100 + b);
    assert(packed % 0x100_0000 == r * 0x1_0000 + g * 0x100 + b);
}

/// Converting a color to a packed `u32` and back gives the color back; for an
/// `Rgba` every `u32` also survives the way back, while an `Rgb` keeps the
/// three color bytes of a `u32` and sets its alpha byte to full opacity.
pub proof fn lemma_u32_conversion_round_trip<S>(
    rgb: Rgb<S, u8>,
    rgba: Alpha<Rgb<S, u8>, u8>,
    packed: u32,
)
    ensures
        <Rgb<S, u8> as FromSpec<u32>>::from_spec(
            <u32 as FromSpec<Rgb<S, u8>>>::from_spec(rgb),
        ) == rgb,
        <Alpha<Rgb<S, u8>, u8> as FromSpec<u32>>::from_spec(
            <u32 as FromSpec<Alpha<Rgb<S, u8>, u8>>>::from_spec(rgba),
        ) == rgba,
        <u32 as FromSpec<Alpha<Rgb<S, u8>, u8>>>::from_spec(
            <Alpha<Rgb<S, u8>, u8> as FromSpec<u32>>::from_spec(packed),
        ) == packed,
        <u32 as FromSpec<Rgb<S, u8>>>::from_spec(
            <Rgb<S, u8> as FromSpec<u32>>::from_spec(packed),
        ) == packed % 0x100_0000 + 0xFF00_0000,
{
    <channels::Argb as ComponentOrder<Rgba<S, u8>, u32>>::lemma_round_trip(
        Alpha { color: rgb, alpha: 255u8 },
        packed,
    );
    <channels::Rgba as ComponentOrder<Rgba<S, u8>, u32>>::lemma_round_trip(rgba, packed);
    lemma_opaque_repack(packed);
}

} // verus!

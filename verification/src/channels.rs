//! Channel orders for packing an RGBA color with `u8` components into a `u32`.
//! The first channel of an order takes the most significant byte.

use vstd::prelude::*;

use crate::alpha::Alpha;
use crate::rgb::Rgb;

verus! {

/// The `u32` whose bytes, most significant first, are `b0`, `b1`, `b2`, `b3`.
pub open spec fn spec_pack_bytes(b0: u8, b1: u8, b2: u8, b3: u8) -> u32 {
    (b0 * 0x100_0000 + b1 * 0x1_0000 + b2 * 0x100 + b3) as u32
}

/// The bytes of `p`, most significant first.
pub open spec fn spec_unpack_bytes(p: u32) -> (u8, u8, u8, u8) {
    (
        (p / 0x100_0000) as u8,
        ((p / 0x1_0000) % 0x100) as u8,
        ((p / 0x100) % 0x100) as u8,
        (p % 0x100) as u8,
    )
}

/// Joins four bytes, most significant first, into a `u32`.
fn pack_bytes(b0: u8, b1: u8, b2: u8, b3: u8) -> (p: u32)
    ensures
        p == spec_pack_bytes(b0, b1, b2, b3),
{
    let p = ((b0 as u32) << 24u32) | ((b1 as u32) << 16u32) | ((b2 as u32) << 8u32) | (b3 as u32);
    assert(p == spec_pack_bytes(b0, b1, b2, b3)) by (bit_vector)
        requires
            p == ((b0 as u32) << 24u32) | ((b1 as u32) << 16u32) | ((b2 as u32) << 8u32) | (
            b3 as u32),
    ;
    p
}

/// Splits a `u32` into its four bytes, most significant first.
fn unpack_bytes(p: u32) -> (b: (u8, u8, u8, u8))
    ensures
        b == spec_unpack_bytes(p),
{
    let b0 = (p >> 24u32) as u8;
    let b1 = (p >> 16u32) as u8;
    let b2 = (p >> 8u32) as u8;
    let b3 = p as u8;
    assert(b0 == (p / 0x100_0000) as u8 && b1 == ((p / 0x1_0000) % 0x100) as u8 && b2 == ((p
        / 0x100) % 0x100) as u8 && b3 == (p % 0x100) as u8) by (bit_vector)
        requires
            b0 == (p >> 24u32) as u8,
            b1 == (p >> 16u32) as u8,
            b2 == (p >> 8u32) as u8,
            b3 == p as u8,
    ;
    (b0, b1, b2, b3)
}

/// Splitting the `u32` that four bytes make gives the bytes back.
pub proof fn lemma_unpack_pack_bytes(b0: u8, b1: u8, b2: u8, b3: u8)
    ensures
        spec_unpack_bytes(spec_pack_bytes(b0, b1, b2, b3)) == (b0, b1, b2, b3),
{
    let p = spec_pack_bytes(b0, b1, b2, b3);
    assert((p / 0x100_0000) as u8 == b0 && ((p / 0x1_0000) % 0x100) as u8 == b1 && ((p / 0x100)
        % 0x100) as u8 == b2 && (p % 0x100) as u8 == b3) by (bit_vector)
        requires
            p == (b0 * 0x100_0000 + b1 * 0x1_0000 + b2 * 0x100 + b3) as u32,
    ;
}

/// Joining the bytes of a `u32` gives it back.
pub proof fn lemma_pack_unpack_bytes(p: u32)
    ensures
        ({
            let (b0, b1, b2, b3) = spec_unpack_bytes(p);
            spec_pack_bytes(b0, b1, b2, b3) == p
        }),
{
    let (b0, b1, b2, b3) = spec_unpack_bytes(p);
    assert(((p / 0x100_0000) as u8 * 0x100_0000 + ((p / 0x1_0000) % 0x100) as u8 * 0x1_0000 + ((p
        / 0x100) % 0x100) as u8 * 0x100 + (p % 0x100) as u8) as u32 == p) by (bit_vector);
}

/// Packs and unpacks a color of type `T` into and from a `P` in one channel
/// order. Unpacking a packed color gives it back, and packing an unpacked
/// value gives it back.
pub trait ComponentOrder<T, P> {
    /// The packed form of `color`.
    spec fn spec_pack(color: T) -> P;

    /// The color that `packed` holds.
    spec fn spec_unpack(packed: P) -> T;

    /// Packing loses nothing, and every packed value is the packing of a color.
    proof fn lemma_round_trip(color: T, packed: P)
        ensures
            Self::spec_unpack(Self::spec_pack(color)) == color,
            Self::spec_pack(Self::spec_unpack(packed)) == packed,
    ;

    /// Combines the components of a color into a single value.
    fn pack(color: T) -> (p: P)
        ensures
            p == Self::spec_pack(color),
    ;

    /// Splits a single value into the components of a color.
    fn unpack(packed: P) -> (c: T)
        ensures
            c == Self::spec_unpack(packed),
    ;
}

/// RGBA color packed in ABGR order: alpha in the most significant byte.
#[derive(Clone, Copy, Debug, PartialEq, Eq)]
pub struct Abgr;

/// RGBA color packed in ARGB order: alpha in the most significant byte.
#[derive(Clone, Copy, Debug, PartialEq, Eq)]
pub struct Argb;

/// RGBA color packed in BGRA order: blue in the most significant byte.
#[derive(Clone, Copy, Debug, PartialEq, Eq)]
pub struct Bgra;

/// RGBA color packed in RGBA order: red in the most significant byte.
#[derive(Clone, Copy, Debug, PartialEq, Eq)]
pub struct Rgba;

impl<S> ComponentOrder<Alpha<Rgb<S, u8>, u8>, u32> for Abgr {
    open spec fn spec_pack(c: Alpha<Rgb<S, u8>, u8>) -> u32 {
        spec_pack_bytes(c.alpha, c.color.blue, c.color.green, c.color.red)
    }

    open spec fn spec_unpack(p: u32) -> Alpha<Rgb<S, u8>, u8> {
        let (a, b, g, r) = spec_unpack_bytes(p);
        Alpha::<Rgb<S, u8>, u8>::spec_new(r, g, b, a)
    }

    proof fn lemma_round_trip(color: Alpha<Rgb<S, u8>, u8>, packed: u32) {
        lemma_unpack_pack_bytes(color.alpha, color.color.blue, color.color.green, color.color.red);
        lemma_pack_unpack_bytes(packed);
    }

    fn pack(c: Alpha<Rgb<S, u8>, u8>) -> (p: u32) {
        pack_bytes(c.alpha, c.color.blue, c.color.green, c.color.red)
    }

    fn unpack(p: u32) -> (c: Alpha<Rgb<S, u8>, u8>) {
        let (a, b, g, r) = unpack_bytes(p);
        Alpha::<Rgb<S, u8>, u8>::new(r, g, b, a)
    }
}

impl<S> ComponentOrder<Alpha<Rgb<S, u8>, u8>, u32> for Argb {
    open spec fn spec_pack(c: Alpha<Rgb<S, u8>, u8>) -> u32 {
        spec_pack_bytes(c.alpha, c.color.red, c.color.green, c.color.blue)
    }

    open spec fn spec_unpack(p: u32) -> Alpha<Rgb<S, u8>, u8> {
        let (a, r, g, b) = spec_unpack_bytes(p);
        Alpha::<Rgb<S, u8>, u8>::spec_new(r, g, b, a)
    }

    proof fn lemma_round_trip(color: Alpha<Rgb<S, u8>, u8>, packed: u32) {
        lemma_unpack_pack_bytes(color.alpha, color.color.red, color.color.green, color.color.blue);
        lemma_pack_unpack_bytes(packed);
    }

    fn pack(c: Alpha<Rgb<S, u8>, u8>) -> (p: u32) {
        pack_bytes(c.alpha, c.color.red, c.color.green, c.color.blue)
    }

    fn unpack(p: u32) -> (c: Alpha<Rgb<S, u8>, u8>) {
        let (a, r, g, b) = unpack_bytes(p);
        Alpha::<Rgb<S, u8>, u8>::new(r, g, b, a)
    }
}

impl<S> ComponentOrder<Alpha<Rgb<S, u8>, u8>, u32> for Bgra {
    open spec fn spec_pack(c: Alpha<Rgb<S, u8>, u8>) -> u32 {
        spec_pack_bytes(c.color.blue, c.color.green, c.color.red, c.alpha)
    }

    open spec fn spec_unpack(p: u32) -> Alpha<Rgb<S, u8>, u8> {
        let (b, g, r, a) = spec_unpack_bytes(p);
        Alpha::<Rgb<S, u8>, u8>::spec_new(r, g, b, a)
    }

    proof fn lemma_round_trip(color: Alpha<Rgb<S, u8>, u8>, packed: u32) {
        lemma_unpack_pack_bytes(color.color.blue, color.color.green, color.color.red, color.alpha);
        lemma_pack_unpack_bytes(packed);
    }

    fn pack(c: Alpha<Rgb<S, u8>, u8>) -> (p: u32) {
        pack_bytes(c.color.blue, c.color.green, c.color.red, c.alpha)
    }

    fn unpack(p: u32) -> (c: Alpha<Rgb<S, u8>, u8>) {
        let (b, g, r, a) = unpack_bytes(p);
        Alpha::<Rgb<S, u8>, u8>::new(r, g, b, a)
    }
}

impl<S> ComponentOrder<Alpha<Rgb<S, u8>, u8>, u32> for Rgba {
    open spec fn spec_pack(c: Alpha<Rgb<S, u8>, u8>) -> u32 {
        spec_pack_bytes(c.color.red, c.color.green, c.color.blue, c.alpha)
    }

    open spec fn spec_unpack(p: u32) -> Alpha<Rgb<S, u8>, u8> {
        let (r, g, b, a) = spec_unpack_bytes(p);
        Alpha::<Rgb<S, u8>, u8>::spec_new(r, g, b, a)
    }

    proof fn lemma_round_trip(color: Alpha<Rgb<S, u8>, u8>, packed: u32) {
        lemma_unpack_pack_bytes(color.color.red, color.color.green, color.color.blue, color.alpha);
        lemma_pack_unpack_bytes(packed);
    }

    fn pack(c: Alpha<Rgb<S, u8>, u8>) -> (p: u32) {
        pack_bytes(c.color.red, c.color.green, c.color.blue, c.alpha)
    }

    fn unpack(p: u32) -> (c: Alpha<Rgb<S, u8>, u8>) {
        let (r, g, b, a) = unpack_bytes(p);
        Alpha::<Rgb<S, u8>, u8>::new(r, g, b, a)
    }
}

/// Each channel order puts its first channel in the most significant byte of
/// the `u32` and its last in the least: RGBA packs as `0xRRGGBBAA`, ARGB as
/// `0xAARRGGBB`, BGRA as `0xBBGGRRAA` and ABGR as `0xAABBGGRR`, and unpacking
/// reads the channels back from those bytes.
pub proof fn lemma_channel_layouts<S>(c: Alpha<Rgb<S, u8>, u8>, p: u32)
    ensures
        <Rgba as ComponentOrder<Alpha<Rgb<S, u8>, u8>, u32>>::spec_pack(c) == c.color.red * 0x100_0000
            + c.color.green * 0x1_0000 + c.color.blue * 0x100 + c.alpha,
        ({
            let d = <Rgba as ComponentOrder<Alpha<Rgb<S, u8>, u8>, u32>>::spec_unpack(p);
            &&& d.color.red == p / 0x100_0000
            &&& d.color.green == (p / 0x1_0000) % 0x100
            &&& d.color.blue == (p / 0x100) % 0x100
            &&& d.alpha == p % 0x100
        }),
        <Argb as ComponentOrder<Alpha<Rgb<S, u8>, u8>, u32>>::spec_pack(c) == c.alpha * 0x100_0000
            + c.color.red * 0x1_0000 + c.color.green * 0x100 + c.color.blue,
        ({
            let d = <Argb as ComponentOrder<Alpha<Rgb<S, u8>, u8>, u32>>::spec_unpack(p);
            &&& d.alpha == p / 0x100_0000
            &&& d.color.red == (p / 0x1_0000) % 0x100
            &&& d.color.green == (p / 0x100) % 0x100
            &&& d.color.blue == p % 0x100
        }),
        <Bgra as ComponentOrder<Alpha<Rgb<S, u8>, u8>, u32>>::spec_pack(c) == c.color.blue * 0x100_0000
            + c.color.green * 0x1_0000 + c.color.red * 0x100 + c.alpha,
        ({
            let d = <Bgra as ComponentOrder<Alpha<Rgb<S, u8>, u8>, u32>>::spec_unpack(p);
            &&& d.color.blue == p / 0x100_0000
            &&& d.color.green == (p / 0x1_0000) % 0x100
            &&& d.color.red == (p / 0x100) % 0x100
            &&& d.alpha == p % 0x100
        }),
        <Abgr as ComponentOrder<Alpha<Rgb<S, u8>, u8>, u32>>::spec_pack(c) == c.alpha * 0x100_0000
            + c.color.blue * 0x1_0000 + c.color.green * 0x100 + c.color.red,
        ({
            let d = <Abgr as ComponentOrder<Alpha<Rgb<S, u8>, u8>, u32>>::spec_unpack(p);
            &&& d.alpha == p / 0x100_0000
            &&& d.color.blue == (p / 0x1_0000) % 0x100
            &&& d.color.green == (p / 0x100) % 0x100
            &&& d.color.red == p % 0x100
        }),
{
}

} // verus!

use palette::cast::Packed;
use palette::channels::{self, ComponentOrder};
use palette::{Rgb, Rgba, Srgb};

#[test]
fn pack_in_every_channel_order() {
    let c = Rgba::<Srgb, u8>::new(0x11, 0x22, 0x33, 0x44);
    assert_eq!(c.into_u32::<channels::Rgba>(), 0x1122_3344);
    assert_eq!(c.into_u32::<channels::Argb>(), 0x4411_2233);
    assert_eq!(c.into_u32::<channels::Bgra>(), 0x3322_1144);
    assert_eq!(c.into_u32::<channels::Abgr>(), 0x4433_2211);
}

#[test]
fn unpack_in_every_channel_order() {
    let expected = Rgba::<Srgb, u8>::new(0x11, 0x22, 0x33, 0x44);
    assert_eq!(Rgba::<Srgb, u8>::from_u32::<channels::Rgba>(0x1122_3344), expected);
    assert_eq!(Rgba::<Srgb, u8>::from_u32::<channels::Argb>(0x4411_2233), expected);
    assert_eq!(Rgba::<Srgb, u8>::from_u32::<channels::Bgra>(0x3322_1144), expected);
    assert_eq!(Rgba::<Srgb, u8>::from_u32::<channels::Abgr>(0x4433_2211), expected);
}

#[test]
fn documented_packing_examples() {
    assert_eq!(Rgb::<Srgb, u8>::new(96, 127, 0).into_u32::<channels::Rgba>(), 0x607F_00FF);
    assert_eq!(u32::from(Rgb::<Srgb, u8>::new(96, 127, 0)), 0xFF60_7F00);
    assert_eq!(
        Rgb::<Srgb, u8>::from_u32::<channels::Rgba>(0x607F_00FF),
        Rgb::<Srgb, u8>::new(96, 127, 0)
    );
    assert_eq!(Rgb::<Srgb, u8>::from(0x607F00), Rgb::<Srgb, u8>::new(96, 127, 0));
    assert_eq!(
        Rgba::<Srgb, u8>::new(96, 127, 0, 255).into_u32::<channels::Argb>(),
        0xFF60_7F00
    );
    assert_eq!(u32::from(Rgba::<Srgb, u8>::new(96, 127, 0, 255)), 0x607F_00FF);
    assert_eq!(
        Rgba::<Srgb, u8>::from_u32::<channels::Argb>(0xFF60_7F00),
        Rgba::<Srgb, u8>::new(96, 127, 0, 255)
    );
    assert_eq!(
        Rgba::<Srgb, u8>::from(0x607F_00FF),
        Rgba::<Srgb, u8>::new(96, 127, 0, 255)
    );
}

#[test]
fn packing_round_trips() {
    let colors = [(0u8, 0u8, 0u8, 0u8), (1, 2, 3, 4), (255, 128, 7, 200), (255, 255, 255, 255)];
    for (r, g, b, a) in colors {
        let rgba = Rgba::<Srgb, u8>::new(r, g, b, a);
        let rgb = Rgb::<Srgb, u8>::new(r, g, b);
        assert_eq!(Rgba::<Srgb, u8>::from_u32::<channels::Bgra>(rgba.into_u32::<channels::Bgra>()), rgba);
        assert_eq!(Rgba::<Srgb, u8>::from(u32::from(rgba)), rgba);
        assert_eq!(Rgb::<Srgb, u8>::from(u32::from(rgb)), rgb);
        assert_eq!(Rgb::<Srgb, u8>::from_u32::<channels::Abgr>(rgb.into_u32::<channels::Abgr>()), rgb);
    }
    for p in [0u32, 0x1234_5678, 0xFFFF_FFFF, 0x00AB_CDEF] {
        assert_eq!(u32::from(Rgba::<Srgb, u8>::from(p)), p);
        assert_eq!(u32::from(Rgb::<Srgb, u8>::from(p)), p % 0x100_0000 + 0xFF00_0000);
    }
}

#[test]
fn component_orders_pack_directly() {
    let c = Rgba::<Srgb, u8>::new(1, 2, 3, 4);
    let p = <channels::Argb as ComponentOrder<Rgba<Srgb, u8>, u32>>::pack(c);
    assert_eq!(p, 0x0401_0203);
    let back: Rgba<Srgb, u8> = <channels::Argb as ComponentOrder<Rgba<Srgb, u8>, u32>>::unpack(p);
    assert_eq!(back, c);
}

#[test]
fn packed_conversions() {
    let rgb = Rgb::<Srgb, u8>::new(0x10, 0x20, 0x30);
    let packed: Packed<channels::Rgba, u32> = Packed::from(rgb);
    assert_eq!(packed.color, 0x1020_30FF);
    assert_eq!(Rgb::<Srgb, u8>::from(packed), rgb);

    let rgba = Rgba::<Srgb, u8>::new(0x10, 0x20, 0x30, 0x40);
    let packed: Packed<channels::Abgr, u32> = Packed::from(rgba);
    assert_eq!(packed.color, 0x4030_2010);
    let back: Rgba<Srgb, u8> = Rgba::from(packed);
    assert_eq!(back, rgba);

    let packed = Packed::<channels::Bgra, u32>::pack(rgba);
    assert_eq!(packed.color, 0x3020_1040);
    let unpacked: Rgba<Srgb, u8> = packed.unpack();
    assert_eq!(unpacked, rgba);
}

use palette::random::UniformRgb;
use palette::{Clamp, ClampAssign, IsWithinBounds, Linear, Rgb, Rgba, Srgb};
use rand::rngs::StdRng;
use rand::SeedableRng;

#[test]
fn components_round_trip() {
    let c = Rgb::<Srgb, u8>::new(1, 2, 3);
    assert_eq!(c.into_components(), (1, 2, 3));
    assert_eq!(Rgb::<Srgb, u8>::from_components(c.into_components()), c);
    let t: (u8, u8, u8) = c.into();
    assert_eq!(t, (1, 2, 3));
    assert_eq!(Rgb::<Srgb, u8>::from(t), c);

    let a = Rgba::<Srgb, u16>::new(1, 2, 3, 4);
    assert_eq!(a.into_components(), (1, 2, 3, 4));
    assert_eq!(Rgba::<Srgb, u16>::from_components((1, 2, 3, 4)), a);
    let t: (u16, u16, u16, u16) = a.into();
    assert_eq!(Rgba::<Srgb, u16>::from(t), a);
    assert_eq!(a.color.clone(), Rgb::<Srgb, u16>::new(1, 2, 3));
    assert_eq!(a.alpha, 4);
}

#[test]
fn min_max_components() {
    assert_eq!(Rgb::<Srgb, u8>::min_red(), 0);
    assert_eq!(Rgb::<Srgb, u8>::min_green(), 0);
    assert_eq!(Rgb::<Srgb, u8>::min_blue(), 0);
    assert_eq!(Rgb::<Srgb, u8>::max_red(), 255);
    assert_eq!(Rgb::<Srgb, u8>::max_green(), 255);
    assert_eq!(Rgb::<Srgb, u8>::max_blue(), 255);
    assert_eq!(Rgb::<Srgb, u16>::max_red(), u16::MAX);
    assert_eq!(Rgb::<Srgb, u64>::max_blue(), u64::MAX);
}

#[test]
fn default_is_black() {
    assert_eq!(Rgb::<Srgb, u8>::default(), Rgb::new(0, 0, 0));
    assert_eq!(Rgb::<Srgb, u32>::default(), Rgb::new(0, 0, 0));
}

#[test]
fn bounds_and_clamping() {
    let c = Rgb::<Srgb, u8>::new(0, 128, 255);
    assert!(c.is_within_bounds());
    assert_eq!(c.clamp(), c);
    let mut d = c;
    d.clamp_assign();
    assert_eq!(d, c);
    assert!(Rgb::<Srgb, u16>::new(u16::MAX, 0, 7).clamp().is_within_bounds());
}

#[test]
fn equality_is_componentwise() {
    assert_eq!(Rgb::<Srgb, u8>::new(1, 2, 3), Rgb::<Srgb, u8>::new(1, 2, 3));
    assert_ne!(Rgb::<Srgb, u8>::new(1, 2, 3), Rgb::<Srgb, u8>::new(1, 2, 4));
    assert_ne!(Rgba::<Srgb, u8>::new(1, 2, 3, 4), Rgba::<Srgb, u8>::new(1, 2, 3, 5));
}

#[test]
fn linear_arithmetic() {
    let a = Rgb::<Linear<Srgb>, u8>::new(10, 20, 30);
    let b = Rgb::<Linear<Srgb>, u8>::new(1, 2, 3);
    assert_eq!(a + b, Rgb::new(11, 22, 33));
    assert_eq!(a - b, Rgb::new(9, 18, 27));
    assert_eq!(b * b, Rgb::new(1, 4, 9));
    assert_eq!(a / b, Rgb::new(10, 10, 10));
    assert_eq!(a + 5u8, Rgb::new(15, 25, 35));
    assert_eq!(a - 5u8, Rgb::new(5, 15, 25));
    assert_eq!(b * 3u8, Rgb::new(3, 6, 9));
    assert_eq!(a / 4u8, Rgb::new(2, 5, 7));

    let mut c = a;
    c.add_assign(b);
    assert_eq!(c, Rgb::new(11, 22, 33));
    c.sub_assign(1u8);
    assert_eq!(c, Rgb::new(10, 21, 32));
    c.mul_assign(2u8);
    assert_eq!(c, Rgb::new(20, 42, 64));
    c.div_assign(Rgb::new(2, 3, 4));
    assert_eq!(c, Rgb::new(10, 14, 16));
    assert_eq!((a + b) - b, a);
}

#[test]
fn uniform_samples_stay_in_range() {
    let mut rng = StdRng::seed_from_u64(7);
    let low = Rgb::<Srgb, u8>::new(10, 100, 0);
    let high = Rgb::<Srgb, u8>::new(20, 200, 255);
    let dist = UniformRgb::new(low, high);
    let mut reds = std::collections::BTreeSet::new();
    for _ in 0..200 {
        let c = dist.sample(&mut rng);
        assert!(10 <= c.red && c.red < 20);
        assert!(100 <= c.green && c.green < 200);
        assert!(c.blue < 255);
        reds.insert(c.red);
    }
    assert!(reds.len() > 1);

    let dist = UniformRgb::new_inclusive(low, low);
    for _ in 0..20 {
        assert_eq!(dist.sample(&mut rng), low);
    }
    let dist = UniformRgb::new_inclusive(low, high);
    let mut blues = std::collections::BTreeSet::new();
    for _ in 0..300 {
        let c = dist.sample(&mut rng);
        assert!(10 <= c.red && c.red <= 20);
        assert!(100 <= c.green && c.green <= 200);
        blues.insert(c.blue);
    }
    assert!(blues.len() > 1);
}

#[test]
fn standard_samples_vary() {
    let mut rng = StdRng::seed_from_u64(11);
    let first = Rgb::<Srgb, u8>::sample_standard(&mut rng);
    let mut differs = false;
    for _ in 0..50 {
        if Rgb::<Srgb, u8>::sample_standard(&mut rng) != first {
            differs = true;
        }
    }
    assert!(differs);
}

#[test]
fn format_and_encoding_conversions() {
    let c = Rgb::<Srgb, u8>::new(1, 2, 3);
    let same: Rgb<Srgb, u8> = c.into_format();
    assert_eq!(same, c);
    assert_eq!(Rgb::<Srgb, u8>::from_format(c), c);

    let a = Rgba::<Srgb, u16>::new(1, 2, 3, 4);
    let same: Rgba<Srgb, u16> = a.into_format();
    assert_eq!(same, a);
    assert_eq!(Rgba::<Srgb, u16>::from_format(a), a);

    let lin = Rgb::<Linear<Srgb>, u8>::new(10, 20, 30);
    let decoded: Rgb<Linear<Srgb>, u8> = lin.into_linear();
    assert_eq!(decoded, lin);
    assert_eq!(Rgb::<Linear<Srgb>, u8>::from_linear(lin), lin);
    let encoded: Rgb<Linear<Srgb>, u8> = lin.into_encoding();
    assert_eq!(encoded, lin);
    assert_eq!(Rgb::<Linear<Srgb>, u8>::from_encoding(lin), lin);

    let lina = Rgba::<Linear<Srgb>, u32>::new(10, 20, 30, 40);
    let decoded: Rgba<Linear<Srgb>, u32> = lina.into_linear();
    assert_eq!(decoded, lina);
    assert_eq!(Rgba::<Linear<Srgb>, u32>::from_linear(lina), lina);
    let encoded: Rgba<Linear<Srgb>, u32> = lina.into_encoding();
    assert_eq!(encoded, lina);
    assert_eq!(Rgba::<Linear<Srgb>, u32>::from_encoding(lina), lina);
}

#[test]
fn linear_transfer_leaves_components() {
    let c = Rgb::<Linear<Srgb>, u16>::new(7, 7, 300);
    let decoded: Rgb<Linear<Srgb>, u16> = c.into_linear();
    assert_eq!(decoded, c);
    assert_eq!(decoded.red, decoded.green);
    assert!(decoded.green <= decoded.blue);
    assert_eq!(Rgb::<Linear<Srgb>, u16>::from_linear(c), c);
}

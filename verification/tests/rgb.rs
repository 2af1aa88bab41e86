use palette::channels;
use palette::{Rgb, Rgba, Srgb};

#[test]
fn lower_hex() {
    assert_eq!(Rgb::<Srgb, u8>::new(171, 193, 35).fmt_lower_hex(None), "abc123");
}

#[test]
fn lower_hex_small_numbers() {
    assert_eq!(Rgb::<Srgb, u8>::new(1, 2, 3).fmt_lower_hex(None), "010203");
    assert_eq!(Rgb::<Srgb, u16>::new(1, 2, 3).fmt_lower_hex(None), "000100020003");
    assert_eq!(
        Rgb::<Srgb, u32>::new(1, 2, 3).fmt_lower_hex(None),
        "000000010000000200000003"
    );
    assert_eq!(
        Rgb::<Srgb, u64>::new(1, 2, 3).fmt_lower_hex(None),
        "000000000000000100000000000000020000000000000003"
    );
}

#[test]
fn lower_hex_custom_width() {
    assert_eq!(Rgb::<Srgb, u8>::new(1, 2, 3).fmt_lower_hex(Some(3)), "001002003");
    assert_eq!(Rgb::<Srgb, u16>::new(1, 2, 3).fmt_lower_hex(Some(3)), "001002003");
    assert_eq!(Rgb::<Srgb, u32>::new(1, 2, 3).fmt_lower_hex(Some(3)), "001002003");
    assert_eq!(Rgb::<Srgb, u64>::new(1, 2, 3).fmt_lower_hex(Some(3)), "001002003");
}

#[test]
fn upper_hex() {
    assert_eq!(Rgb::<Srgb, u8>::new(171, 193, 35).fmt_upper_hex(None), "ABC123");
}

#[test]
fn upper_hex_small_numbers() {
    assert_eq!(Rgb::<Srgb, u8>::new(1, 2, 3).fmt_upper_hex(None), "010203");
    assert_eq!(Rgb::<Srgb, u16>::new(1, 2, 3).fmt_upper_hex(None), "000100020003");
    assert_eq!(
        Rgb::<Srgb, u32>::new(1, 2, 3).fmt_upper_hex(None),
        "000000010000000200000003"
    );
    assert_eq!(
        Rgb::<Srgb, u64>::new(1, 2, 3).fmt_upper_hex(None),
        "000000000000000100000000000000020000000000000003"
    );
}

#[test]
fn upper_hex_custom_width() {
    assert_eq!(Rgb::<Srgb, u8>::new(1, 2, 3).fmt_upper_hex(Some(3)), "001002003");
    assert_eq!(Rgb::<Srgb, u16>::new(1, 2, 3).fmt_upper_hex(Some(3)), "001002003");
    assert_eq!(Rgb::<Srgb, u32>::new(1, 2, 3).fmt_upper_hex(Some(3)), "001002003");
    assert_eq!(Rgb::<Srgb, u64>::new(1, 2, 3).fmt_upper_hex(Some(3)), "001002003");
}

#[test]
fn rgb_hex_into_from() {
    let c1 = Rgb::<Srgb, u8>::from_u32::<channels::Argb>(0x1100_7FFF);
    let c2 = Rgb::<Srgb, u8>::new(0u8, 127, 255);
    assert_eq!(c1, c2);
    assert_eq!(Rgb::<Srgb, u8>::into_u32::<channels::Argb>(c1), 0xFF00_7FFF);

    let c1 = Rgba::<Srgb, u8>::from_u32::<channels::Rgba>(0x007F_FF80);
    let c2 = Rgba::<Srgb, u8>::new(0u8, 127, 255, 128);
    assert_eq!(c1, c2);
    assert_eq!(
        Rgba::<Srgb, u8>::into_u32::<channels::Rgba>(c1),
        0x007F_FF80
    );

    assert_eq!(
        Rgb::<Srgb, u8>::from(0x7FFF_FF80),
        Rgb::from((255u8, 255, 128))
    );
    assert_eq!(
        Rgba::<Srgb, u8>::from(0x7FFF_FF80),
        Rgba::from((127u8, 255, 255, 128))
    );
}

#[test]
fn from_str() {
    let c = Rgb::<Srgb, u8>::from_str("#ffffff");
    assert!(c.is_ok());
    assert_eq!(c.unwrap(), Rgb::<Srgb, u8>::new(255, 255, 255));
    let c = Rgb::<Srgb, u8>::from_str("#gggggg");
    assert!(c.is_err());
    let c = Rgb::<Srgb, u8>::from_str("#fff");
    assert!(c.is_ok());
    assert_eq!(c.unwrap(), Rgb::<Srgb, u8>::new(255, 255, 255));
    let c = Rgb::<Srgb, u8>::from_str("#000000");
    assert!(c.is_ok());
    assert_eq!(c.unwrap(), Rgb::<Srgb, u8>::new(0, 0, 0));
    let c = Rgb::<Srgb, u8>::from_str("");
    assert!(c.is_err());
    let c = Rgb::<Srgb, u8>::from_str("#123456");
    assert!(c.is_ok());
    assert_eq!(c.unwrap(), Rgb::<Srgb, u8>::new(18, 52, 86));
    let c = Rgb::<Srgb, u8>::from_str("#iii");
    assert!(c.is_err());
    assert_eq!(c.err().unwrap().to_string(), "invalid digit found in string");
    let c = Rgb::<Srgb, u8>::from_str("#08f");
    assert_eq!(c.unwrap(), Rgb::<Srgb, u8>::new(0, 136, 255));
    let c = Rgb::<Srgb, u8>::from_str("08f");
    assert_eq!(c.unwrap(), Rgb::<Srgb, u8>::new(0, 136, 255));
    let c = Rgb::<Srgb, u8>::from_str("ffffff");
    assert_eq!(c.unwrap(), Rgb::<Srgb, u8>::new(255, 255, 255));
    let c = Rgb::<Srgb, u8>::from_str("#12");
    assert!(c.is_err());
    assert_eq!(
        c.err().unwrap().to_string(),
        "invalid hex code format, \
         please use format \'#fff\', \'fff\', \'#ffffff\' or \'ffffff\'."
    );
    let c = Rgb::<Srgb, u8>::from_str("da0bce");
    assert_eq!(c.unwrap(), Rgb::<Srgb, u8>::new(218, 11, 206));
    let c = Rgb::<Srgb, u8>::from_str("f034e6");
    assert_eq!(c.unwrap(), Rgb::<Srgb, u8>::new(240, 52, 230));
    let c = Rgb::<Srgb, u8>::from_str("abc");
    assert_eq!(c.unwrap(), Rgb::<Srgb, u8>::new(170, 187, 204));
}

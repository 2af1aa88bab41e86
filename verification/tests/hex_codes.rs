use palette::{FromHexError, Rgb, Srgb};

#[test]
fn hex_format_then_parse_gives_the_color_back() {
    for (r, g, b) in [(0u8, 0u8, 0u8), (1, 2, 3), (171, 193, 35), (255, 255, 255), (16, 15, 160)] {
        let c = Rgb::<Srgb, u8>::new(r, g, b);
        assert_eq!(Rgb::<Srgb, u8>::from_str(&c.fmt_lower_hex(None)).unwrap(), c);
        assert_eq!(Rgb::<Srgb, u8>::from_str(&c.fmt_upper_hex(None)).unwrap(), c);
    }
}

#[test]
fn short_code_repeats_each_digit() {
    for (short, long) in [("abc", "aabbcc"), ("08f", "0088ff"), ("F0a", "FF00aa"), ("1+2", "11++22")] {
        let a = Rgb::<Srgb, u8>::from_str(short);
        let b = Rgb::<Srgb, u8>::from_str(long);
        match (a, b) {
            (Ok(x), Ok(y)) => assert_eq!(x, y),
            (Err(FromHexError::ParseIntError(_)), Err(FromHexError::ParseIntError(_))) => {}
            _ => panic!("short and long forms disagree for {}", short),
        }
    }
}

#[test]
fn leading_hash_is_optional() {
    for code in ["abc", "123456", "zzz", "12"] {
        let with = Rgb::<Srgb, u8>::from_str(&format!("#{}", code));
        let without = Rgb::<Srgb, u8>::from_str(code);
        assert_eq!(with.is_ok(), without.is_ok());
        if let (Ok(a), Ok(b)) = (with, without) {
            assert_eq!(a, b);
        }
    }
    assert!(Rgb::<Srgb, u8>::from_str("##abc").is_err());
}

#[test]
fn hex_errors_by_kind() {
    assert!(matches!(
        Rgb::<Srgb, u8>::from_str("#1234"),
        Err(FromHexError::HexFormatError("invalid hex code format"))
    ));
    assert!(matches!(
        Rgb::<Srgb, u8>::from_str("#"),
        Err(FromHexError::HexFormatError(_))
    ));
    assert!(matches!(
        Rgb::<Srgb, u8>::from_str("12345g"),
        Err(FromHexError::ParseIntError(_))
    ));
    assert!(matches!(
        Rgb::<Srgb, u8>::from_str("ééé"),
        Err(FromHexError::ParseIntError(_))
    ));
    assert!(matches!(
        Rgb::<Srgb, u8>::from_str("xé"),
        Err(FromHexError::ParseIntError(_))
    ));
    assert!(matches!(
        Rgb::<Srgb, u8>::from_str("#zzé"),
        Err(FromHexError::HexFormatError(_))
    ));
    assert!(matches!(
        Rgb::<Srgb, u8>::from_str("+ff"),
        Err(FromHexError::ParseIntError(_))
    ));
}

#[test]
fn signs_are_no_hex_digits() {
    for code in ["+f+f+f", "#+f+f+f", "+ff", "+1+2+3", "-1-2-3", "00+f00"] {
        assert!(matches!(
            Rgb::<Srgb, u8>::from_str(code),
            Err(FromHexError::ParseIntError(_))
        ));
    }
    let e = Rgb::<Srgb, u8>::from_str("+f+f+f").err().unwrap();
    assert_eq!(e.to_string(), "invalid digit found in string");
}

#[test]
fn hex_error_sources() {
    let e = Rgb::<Srgb, u8>::from_str("#ggg").err().unwrap();
    assert!(e.source().is_some());
    let e = Rgb::<Srgb, u8>::from_str("#gggg").err().unwrap();
    assert!(e.source().is_none());
}

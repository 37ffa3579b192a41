use colza::color::{wcag_level, HexColorError, Rgb, WcagLevel};
use colza::text::is_white_space;

/// The number of whole halves in a ratio.
fn halves(ratio: f64) -> u32 {
    (ratio * 2.0) as u32
}

#[test]
fn hex_roundtrip() {
    let c = Rgb::new(0x1A, 0x2B, 0x3C);
    assert_eq!(c.to_hex(), "#1A2B3C");
    assert_eq!(Rgb::from_hex("#1A2B3C").unwrap(), c);
    assert_eq!(Rgb::from_hex("1a2b3c").unwrap(), c);
}

#[test]
fn from_hex_rejects_bad_input() {
    assert!(Rgb::from_hex("#12345").is_err());
    assert!(Rgb::from_hex("#zzzzzz").is_err());
}

#[test]
fn wcag_level_thresholds_normal_text() {
    assert_eq!(wcag_level(halves(2.0), false), WcagLevel::Fail);
    assert_eq!(wcag_level(halves(3.5), false), WcagLevel::AaLargeOnly);
    assert_eq!(wcag_level(halves(4.5), false), WcagLevel::Aa);
    assert_eq!(wcag_level(halves(7.0), false), WcagLevel::Aaa);
}

#[test]
fn wcag_level_thresholds_large_text() {
    assert_eq!(wcag_level(halves(2.9), true), WcagLevel::Fail);
    assert_eq!(wcag_level(halves(3.0), true), WcagLevel::Aa);
    assert_eq!(wcag_level(halves(4.5), true), WcagLevel::Aaa);
}

#[test]
fn halves_decide_the_thresholds_exactly() {
    let mut ratio: f64 = 1.0;
    while ratio < 21.0 {
        for r in [ratio, 3.0, 2.9999999999999996, 4.5, 4.499999999999999, 7.0, 6.999999999999999] {
            let level = wcag_level(halves(r), false);
            assert_eq!(level == WcagLevel::Aaa, r >= 7.0);
            assert_eq!(level == WcagLevel::Fail, !(r >= 3.0));
            assert_eq!(wcag_level(halves(r), true) == WcagLevel::Aaa, r >= 4.5);
        }
        ratio += 0.001;
    }
    assert_eq!(wcag_level(halves(f64::NAN), false), WcagLevel::Fail);
}

#[test]
fn level_names() {
    assert_eq!(WcagLevel::Fail.label(), "FAIL");
    assert_eq!(WcagLevel::AaLargeOnly.label(), "AA (large text only)");
    assert_eq!(WcagLevel::Aa.label(), "AA");
    assert_eq!(WcagLevel::Aaa.label(), "AAA");
}

#[test]
fn every_channel_is_written_and_read_back() {
    for n in 0..=255u8 {
        let c = Rgb::new(n, 255 - n, n ^ 0x5a);
        assert_eq!(c.to_hex(), format!("#{:02X}{:02X}{:02X}", c.r, c.g, c.b));
        assert_eq!(Rgb::from_hex(&c.to_hex()).unwrap(), c);
        assert_eq!(Rgb::from_hex(&c.to_hex().to_lowercase()).unwrap(), c);
        assert_eq!(
            c.describe(),
            format!("{} rgb({}, {}, {})", c.to_hex(), c.r, c.g, c.b)
        );
    }
}

#[test]
fn hex_accepts_whitespace_hashes_and_signs() {
    let c = Rgb::new(1, 2, 3);
    assert_eq!(Rgb::from_hex("  ##010203\u{2003}\n").unwrap(), c);
    assert_eq!(Rgb::from_hex("+1+2+3").unwrap(), c);
    assert!(Rgb::from_hex("-1-2-3").is_err());
    assert!(Rgb::from_hex("# 10203").is_err());
}

#[test]
fn hex_errors_are_told_apart() {
    let long = Rgb::from_hex(" #1234567").unwrap_err();
    assert!(matches!(long, HexColorError::WrongLength { .. }));
    assert_eq!(
        long.message(),
        "expected a 6-digit hex color like #RRGGBB, got ' #1234567'"
    );
    let digit = Rgb::from_hex("12345g").unwrap_err();
    assert!(matches!(digit, HexColorError::InvalidDigit));
    assert_eq!(
        digit.message(),
        u8::from_str_radix("5g", 16).unwrap_err().to_string()
    );
    assert!(matches!(
        Rgb::from_hex("").unwrap_err(),
        HexColorError::WrongLength { .. }
    ));
    // Six characters, but more bytes; and six bytes, but fewer characters.
    assert!(matches!(
        Rgb::from_hex("12345é").unwrap_err(),
        HexColorError::WrongLength { .. }
    ));
    for text in ["ééé", "aébcd", "€€", "12€4", "1234é", "😀12"] {
        assert_eq!(text.len(), 6);
        assert!(matches!(
            Rgb::from_hex(text).unwrap_err(),
            HexColorError::InvalidDigit
        ));
    }
}

#[test]
fn white_space_is_that_of_unicode() {
    for c in '\0'..=char::MAX {
        assert_eq!(is_white_space(c), c.is_whitespace(), "{c:?}");
    }
}

#[test]
fn text_color_is_that_of_the_weighted_channels() {
    for r in 0..=255u8 {
        for g in 0..=255u8 {
            for b in 0..=255u8 {
                let luminance = 0.299 * r as f32 + 0.587 * g as f32 + 0.114 * b as f32;
                assert_eq!(Rgb::new(r, g, b).prefers_black_text(), luminance > 128.0);
            }
        }
    }
}

#[test]
fn digits_are_written_back_in_upper_case() {
    for digits in ["000000", "0123AB", "FEDC98", "FFFFFF", "abcdef", "1a2B3c"] {
        let written = format!("#{}", digits.to_uppercase());
        assert_eq!(Rgb::from_hex(digits).unwrap().to_hex(), written);
        assert_eq!(Rgb::from_hex(&format!("#{digits}")).unwrap().to_hex(), written);
    }
}

#[test]
fn more_contrast_is_never_graded_lower() {
    let rank = |level: WcagLevel| match level {
        WcagLevel::Fail => 0,
        WcagLevel::AaLargeOnly => 1,
        WcagLevel::Aa => 2,
        WcagLevel::Aaa => 3,
    };
    for n in 0..50 {
        assert!(rank(wcag_level(n, false)) <= rank(wcag_level(n + 1, false)));
        assert!(rank(wcag_level(n, true)) <= rank(wcag_level(n + 1, true)));
        assert!(rank(wcag_level(n, false)) <= rank(wcag_level(n, true)));
        let large_only = wcag_level(n, true) == WcagLevel::Aa && wcag_level(n, false) != WcagLevel::Aa;
        assert_eq!(wcag_level(n, false) == WcagLevel::AaLargeOnly, large_only);
    }
}

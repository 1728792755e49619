use plumeimpactor::accent::{AccentColor, PlumeTheme};

#[test]
fn to_hex_is_upper_case_with_hash() {
    assert_eq!(AccentColor::new(0xE8, 0x8A, 0xAB).to_hex(), "#E88AAB");
    assert_eq!(AccentColor::new(0, 0, 0).to_hex(), "#000000");
    assert_eq!(AccentColor::new(255, 255, 255).to_hex(), "#FFFFFF");
    assert_eq!(AccentColor::new(0x0A, 0xB0, 0x1C).to_hex(), "#0AB01C");
}

#[test]
fn channels_read_back() {
    let c = AccentColor::new(1, 2, 3);
    assert_eq!((c.red(), c.green(), c.blue()), (1, 2, 3));
}

#[test]
fn default_accent_is_pink() {
    let c = AccentColor::default();
    assert_eq!(c, AccentColor::new(0xE8, 0x8A, 0xAB));
    assert_eq!(PlumeTheme::default().accent(), c);
}

#[test]
fn hex_round_trip_on_samples() {
    for &(r, g, b) in &[(0, 0, 0), (255, 255, 255), (0x12, 0xAB, 0xEF), (0xE8, 0x8A, 0xAB), (7, 128, 200)] {
        let c = AccentColor::new(r, g, b);
        assert_eq!(AccentColor::from_str(&c.to_hex()), Ok(c));
    }
}

#[test]
fn from_str_skips_whitespace_and_hashes() {
    let c = AccentColor::new(0xAB, 0xCD, 0xEF);
    assert_eq!(AccentColor::from_str("  #abcdef\n"), Ok(c));
    assert_eq!(AccentColor::from_str("abcdef"), Ok(c));
    assert_eq!(AccentColor::from_str("###AbCdEf"), Ok(c));
    assert_eq!(AccentColor::from_str("\u{3000}#ABCDEF\u{a0}"), Ok(c));
}

#[test]
fn from_str_accepts_plus_sign_per_pair() {
    // `u8::from_str_radix` accepts a leading `+`.
    assert_eq!(AccentColor::from_str("+F+F+F"), Ok(AccentColor::new(15, 15, 15)));
}

#[test]
fn from_str_refuses_other_texts() {
    assert_eq!(AccentColor::from_str(""), Err(()));
    assert_eq!(AccentColor::from_str("#"), Err(()));
    assert_eq!(AccentColor::from_str("#ABCDE"), Err(()));
    assert_eq!(AccentColor::from_str("#ABCDEF0"), Err(()));
    assert_eq!(AccentColor::from_str("#GGGGGG"), Err(()));
    assert_eq!(AccentColor::from_str("-F0000"), Err(()));
    assert_eq!(AccentColor::from_str("#AB CDE"), Err(()));
    assert_eq!(AccentColor::from_str("\u{e9}\u{e9}\u{e9}"), Err(()));
}

#[test]
fn slicing_panics_only_off_char_boundaries() {
    // "A€BC" has six bytes and byte 2 falls inside the euro sign.
    assert!(AccentColor::from_str_would_panic("A\u{20ac}BC"));
    // "AB" then a three-byte and a one-byte character: byte 4 is inside.
    assert!(AccentColor::from_str_would_panic("AB\u{20ac}C"));
    // The red pair fails first, so the green pair is never cut.
    assert!(!AccentColor::from_str_would_panic("ZZ\u{20ac}C"));
    assert!(!AccentColor::from_str_would_panic("#E88AAB"));
    assert!(!AccentColor::from_str_would_panic("\u{e9}\u{e9}\u{e9}"));
}

#[test]
fn theme_name_carries_hex() {
    let t = PlumeTheme::new(AccentColor::new(0x4C, 0xC3, 0x9B));
    assert_eq!(t.theme_name(), "Plume Dark (#4CC39B)");
    assert_eq!(t.accent(), AccentColor::new(0x4C, 0xC3, 0x9B));
}

#[test]
fn different_colours_have_different_text() {
    let a = AccentColor::new(0x10, 0x20, 0x30);
    let b = AccentColor::new(0x10, 0x20, 0x31);
    assert_ne!(a.to_hex(), b.to_hex());
    assert_eq!(a.to_hex(), AccentColor::new(0x10, 0x20, 0x30).to_hex());
}

#[test]
fn theme_is_determined_by_accent() {
    let a = AccentColor::new(1, 2, 3);
    assert_eq!(PlumeTheme::new(a), PlumeTheme::new(AccentColor::new(1, 2, 3)));
    assert_ne!(PlumeTheme::new(a), PlumeTheme::new(AccentColor::new(1, 2, 4)));
    assert_eq!(PlumeTheme::new(AccentColor::default()), PlumeTheme::default());
}

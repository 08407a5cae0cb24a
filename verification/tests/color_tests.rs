use bitclk::color::{paint_foreground, paint_sample, HexColorError, Rgb};
use bitclk::color_engine::ColorHarmonyMode;

#[test]
fn parses_hex_with_or_without_hash() {
    assert_eq!(
        Rgb::from_hex("#3b82f6").expect("hex should parse"),
        Rgb::new(0x3B, 0x82, 0xF6)
    );
    assert_eq!(
        Rgb::from_hex("fff").expect("short hex should parse"),
        Rgb::new(0xFF, 0xFF, 0xFF)
    );
}

#[test]
fn rejects_invalid_hex_inputs() {
    assert_eq!(Rgb::from_hex(""), Err(HexColorError::Empty));
    assert_eq!(Rgb::from_hex("#1234"), Err(HexColorError::InvalidLength(4)));

    let error = Rgb::from_hex("#zzzzzz").expect_err("hex should be invalid");
    assert!(matches!(error, HexColorError::InvalidHex(_)));
}

#[test]
fn formats_hex_in_uppercase() {
    let rgb = Rgb::new(0x3B, 0x82, 0xF6);

    assert_eq!(rgb.to_hex(), "#3B82F6");
    assert_eq!(rgb.to_hex(), "#3B82F6");
}

#[test]
fn hex_parsing_edge_cases() {
    assert_eq!(Rgb::from_hex("  #A0b1C2\t"), Ok(Rgb::new(0xA0, 0xB1, 0xC2)));
    assert_eq!(Rgb::from_hex("#abc"), Ok(Rgb::new(0xAA, 0xBB, 0xCC)));
    assert_eq!(Rgb::from_hex("#"), Err(HexColorError::InvalidLength(0)));
    assert_eq!(Rgb::from_hex("   "), Err(HexColorError::Empty));
    assert_eq!(Rgb::from_hex("##abc"), Err(HexColorError::InvalidLength(4)));
    assert_eq!(Rgb::from_hex("+f+f+f"), Ok(Rgb::new(15, 15, 15)));
    assert_eq!(Rgb::from_hex("+f+g+f"), Err(HexColorError::InvalidHex("+g".to_string())));
    assert_eq!(Rgb::from_hex("+ab"), Err(HexColorError::InvalidHex("++".to_string())));
    assert_eq!(Rgb::from_hex("aé"), Err(HexColorError::InvalidHex("éé".to_string())));
    assert_eq!(Rgb::from_hex("zzaéb"), Err(HexColorError::InvalidHex("zz".to_string())));
    assert_eq!(Rgb::from_hex("12345g"), Err(HexColorError::InvalidHex("5g".to_string())));
    assert_eq!(Rgb::from_hex("g12"), Err(HexColorError::InvalidHex("gg".to_string())));
    assert_eq!(Rgb::from_hex("éééé"), Err(HexColorError::InvalidLength(8)));
    assert_eq!(Rgb::from_hex("ééé"), Err(HexColorError::InvalidHex("é".to_string())));
    assert!(Rgb::hex_input_sliceable("#3b82f6"));
    assert!(!Rgb::hex_input_sliceable("aébcd"));
    assert!(!Rgb::hex_input_sliceable("12aéb"));
    assert!(Rgb::hex_input_sliceable("aé"));
    assert!(Rgb::hex_input_sliceable("zzaéb"));
}

#[test]
fn hex_round_trips() {
    for (r, g, b) in [(0u8, 0u8, 0u8), (255, 255, 255), (0x12, 0xAB, 0x09)] {
        let color = Rgb::new(r, g, b);
        let hex = color.to_hex();
        assert_eq!(Rgb::from_hex(&hex), Ok(color));
        assert_eq!(Rgb::from_hex(&hex.to_lowercase()), Ok(color));
        assert_eq!(Rgb::from_hex(&hex[1..]), Ok(color));
        assert_eq!(Rgb::from_hex(&hex[1..].to_lowercase()), Ok(color));
    }
}

#[test]
fn paints_true_colour_escapes() {
    assert_eq!(
        paint_foreground("hi", Rgb::new(1, 22, 255)),
        "\u{1b}[38;2;1;22;255mhi\u{1b}[39m"
    );
    assert_eq!(
        paint_sample("x", Rgb::new(0, 10, 100), Rgb::new(7, 8, 9)),
        "\u{1b}[38;2;0;10;100m\u{1b}[48;2;7;8;9mx\u{1b}[0m"
    );
}

#[test]
fn cycle_order_covers_all_modes() {
    assert_eq!(
        ColorHarmonyMode::Complementary.next(),
        ColorHarmonyMode::Analogous
    );
    assert_eq!(
        ColorHarmonyMode::SplitComplementary.next(),
        ColorHarmonyMode::Complementary
    );
}

#[test]
fn harmony_cycle_returns_after_four_steps() {
    for mode in ColorHarmonyMode::all() {
        assert_ne!(mode.next(), mode);
        assert_eq!(mode.next().next().next().next(), mode);
    }
    assert_eq!(ColorHarmonyMode::SplitComplementary.label(), "split-complementary");
}

#[test]
fn hex_errors_explain_themselves() {
    assert_eq!(HexColorError::Empty.message(), "hex color cannot be empty");
    assert_eq!(
        HexColorError::InvalidLength(4).message(),
        "hex color must use 3 or 6 digits, got 4"
    );
    assert_eq!(
        HexColorError::InvalidHex("zz".to_string()).message(),
        "invalid hex color component: zz"
    );
}

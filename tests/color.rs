use colori::RgbColor;
use mudstring::color::{Color, ColorSystem, ColorTriplet, ColorType};

fn eight_bit(r: u8, g: u8, b: u8) -> Color {
    Color::from_rgb(r, g, b).downgrade(ColorSystem::EightBit)
}

#[test]
fn triplet_hex_is_zero_padded() {
    assert_eq!(ColorTriplet::new(1, 171, 255).to_hex(), "#01abff");
    assert_eq!(ColorTriplet::new(0, 0, 0).to_hex(), "#000000");
}

#[test]
fn color_from_index_picks_tier() {
    let c = Color::from(5u8);
    assert_eq!(c.ctype, ColorType::Standard);
    assert_eq!(c.number, Some(5));
    assert_eq!(c.name, "color(5)");
    let c = Color::from(16u8);
    assert_eq!(c.ctype, ColorType::EightBit);
    assert_eq!(c.name, "color(16)");
    assert_eq!(Color::from(200u8).system(), ColorSystem::EightBit);
}

#[test]
fn color_from_rgb_is_true_color() {
    let c = Color::from_rgb(10, 20, 30);
    assert_eq!(c.ctype, ColorType::TrueColor);
    assert_eq!(c.triplet, Some(ColorTriplet::new(10, 20, 30)));
    assert_eq!(c.name, "#0a141e");
    assert_eq!(c.number, None);
}

#[test]
fn default_color_codes() {
    let c = Color::default();
    assert!(c.is_default());
    assert!(c.is_system_defined());
    assert_eq!(c.name, "default");
    assert_eq!(c.get_ansi_codes(true), "39");
    assert_eq!(c.get_ansi_codes(false), "49");
}

#[test]
fn ansi_codes_per_representation() {
    assert_eq!(Color::from(1u8).get_ansi_codes(true), "31");
    assert_eq!(Color::from(1u8).get_ansi_codes(false), "41");
    assert_eq!(Color::from(200u8).get_ansi_codes(true), "38;5;200");
    assert_eq!(Color::from(200u8).get_ansi_codes(false), "48;5;200");
    assert_eq!(Color::from_rgb(10, 20, 30).get_ansi_codes(true), "38;2;10;20;30");
    assert_eq!(Color::from_rgb(10, 20, 30).get_ansi_codes(false), "48;2;10;20;30");
    let w = Color { name: "windows".to_string(), ctype: ColorType::Windows, number: None, triplet: None };
    assert_eq!(w.get_ansi_codes(true), "0");
    assert!(w.is_system_defined());
    assert!(!Color::from(200u8).is_system_defined());
    assert!(!Color::from_rgb(1, 2, 3).is_system_defined());
    assert!(Color::from(3u8).is_system_defined());
}

#[test]
fn missing_payload_falls_back() {
    let s = Color { name: "s".to_string(), ctype: ColorType::Standard, number: None, triplet: None };
    assert_eq!(s.get_ansi_codes(true), "30");
    let t = Color { name: "t".to_string(), ctype: ColorType::TrueColor, number: None, triplet: None };
    assert_eq!(t.get_ansi_codes(false), "48;2;0;0;0");
    assert_eq!(t.downgrade(ColorSystem::EightBit), t);
}

#[test]
fn system_and_type_conversions() {
    assert_eq!(ColorType::Default.to_system(), ColorSystem::Standard);
    assert_eq!(ColorType::Standard.to_system(), ColorSystem::Standard);
    assert_eq!(ColorType::Windows.to_system(), ColorSystem::Windows);
    assert_eq!(ColorSystem::TrueColor.to_type(), ColorType::TrueColor);
    assert_eq!(ColorSystem::EightBit.to_type(), ColorType::EightBit);
    assert_eq!(ColorType::default(), ColorType::Default);
    assert_eq!(ColorSystem::Standard.rank(), 1);
    assert_eq!(ColorSystem::Windows.rank(), 4);
}

#[test]
fn downgrade_eight_bit_to_eight_bit_is_unchanged() {
    let c = Color::from(200u8);
    assert_eq!(c.downgrade(ColorSystem::EightBit), c);
}

#[test]
fn downgrade_to_own_tier_is_identity() {
    let colors = vec![
        Color::default(),
        Color::from(3u8),
        Color::from(100u8),
        Color::from_rgb(5, 200, 90),
        Color { name: "w".to_string(), ctype: ColorType::Windows, number: None, triplet: None },
    ];
    for c in colors {
        assert_eq!(c.downgrade(c.system()), c);
    }
}

#[test]
fn downgrade_is_idempotent() {
    let targets = [ColorSystem::Standard, ColorSystem::EightBit, ColorSystem::TrueColor, ColorSystem::Windows];
    let colors = vec![Color::from_rgb(12, 200, 40), Color::from_rgb(90, 90, 92), Color::from(7u8), Color::default()];
    for c in &colors {
        for t in targets {
            let once = c.downgrade(t);
            assert_eq!(once.downgrade(t), once);
        }
    }
}

#[test]
fn gray_ramp_ends_and_middle() {
    assert_eq!(eight_bit(0, 0, 0).number, Some(16));
    assert_eq!(eight_bit(255, 255, 255).number, Some(231));
    assert_eq!(eight_bit(128, 128, 128).number, Some(244));
    let c = eight_bit(128, 128, 128);
    assert_eq!(c.ctype, ColorType::EightBit);
    assert_eq!(c.name, "color(244)");
}

#[test]
fn color_cube_entries() {
    assert_eq!(eight_bit(255, 0, 0).number, Some(196));
    assert_eq!(eight_bit(0, 255, 0).number, Some(46));
    assert_eq!(eight_bit(0, 0, 255).number, Some(21));
    assert_eq!(eight_bit(192, 128, 64).number, Some(179));
}

#[test]
fn downgrade_to_standard_keeps_color() {
    let c = Color::from_rgb(255, 0, 0);
    assert_eq!(c.downgrade(ColorSystem::Standard), c);
    let e = Color::from(200u8);
    assert_eq!(e.downgrade(ColorSystem::Standard), e);
}

#[test]
fn eight_bit_index_stays_in_palette_range() {
    let mut v: u16 = 0;
    while v < 256 {
        let x = v as u8;
        for (r, g, b) in [(x, 0, 0), (x, x, x), (x, 255 - x, 128), (x, x / 2, 255)] {
            let n = eight_bit(r, g, b).number.unwrap();
            assert!(n >= 16);
        }
        v += 17;
    }
}

#[test]
fn gray_decision_agrees_with_hsl_conversion() {
    let samples = [(0u8, 0u8, 0u8), (255, 255, 255), (128, 128, 128), (120, 125, 130), (192, 128, 64), (204, 215, 194), (10, 200, 30), (250, 240, 245)];
    for (r, g, b) in samples {
        let hsl = RgbColor(r, g, b).into_hsl();
        let saturation = hsl.1;
        let lightness = hsl.2;
        let expected = if saturation < 0.1 {
            let gray = (lightness * 25.0).round() as u8;
            if gray == 0 { 16 } else if gray == 25 { 231 } else { 231 + gray }
        } else {
            let q = |c: u8| ((c as f32) / 255.0 * 5.0).round() as u8;
            16 + 36 * q(r) + 6 * q(g) + q(b)
        };
        assert_eq!(eight_bit(r, g, b).number, Some(expected), "rgb {} {} {}", r, g, b);
    }
}

use ccf_gpui_widgets::utils::color::{named_color_to_rgb, parse_color, parse_color_alpha, Rgb, Rgba};

#[test]
fn test_rgb_from_hex_6digit() {
    assert_eq!(Rgb::from_hex("#FF0000"), Some(Rgb::new(255, 0, 0)));
    assert_eq!(Rgb::from_hex("00FF00"), Some(Rgb::new(0, 255, 0)));
    assert_eq!(Rgb::from_hex("#3b82f6"), Some(Rgb::new(59, 130, 246)));
}

#[test]
fn test_rgb_from_hex_3digit() {
    assert_eq!(Rgb::from_hex("#F00"), Some(Rgb::new(255, 0, 0)));
    assert_eq!(Rgb::from_hex("0F0"), Some(Rgb::new(0, 255, 0)));
}

#[test]
fn test_rgb_from_hex_invalid() {
    assert_eq!(Rgb::from_hex("invalid"), None);
    assert_eq!(Rgb::from_hex("#GG0000"), None);
}

#[test]
fn test_rgb_to_hex() {
    assert_eq!(Rgb::new(255, 0, 0).to_hex(), "#FF0000");
    assert_eq!(Rgb::new(0, 255, 0).to_hex(), "#00FF00");
}

#[test]
fn test_rgb_to_u32() {
    assert_eq!(Rgb::new(255, 0, 0).to_u32(), 0xFF0000);
    assert_eq!(Rgb::new(0, 255, 0).to_u32(), 0x00FF00);
}

#[test]
fn test_rgba_from_hex_8digit() {
    assert_eq!(Rgba::from_hex("#FF000080"), Some(Rgba::new(255, 0, 0, 128)));
}

#[test]
fn test_rgba_from_hex_4digit() {
    assert_eq!(Rgba::from_hex("#F008"), Some(Rgba::new(255, 0, 0, 136)));
}

#[test]
fn test_rgba_from_hex_fallback() {
    assert_eq!(Rgba::from_hex("#FF0000"), Some(Rgba::new(255, 0, 0, 255)));
}

#[test]
fn test_rgba_to_u32() {
    assert_eq!(Rgba::new(255, 0, 0, 128).to_u32(), 0xFF000080);
}

#[test]
fn test_named_colors() {
    assert_eq!(named_color_to_rgb("red"), Some(Rgb::new(255, 0, 0)));
    assert_eq!(named_color_to_rgb("RED"), Some(Rgb::new(255, 0, 0)));
    assert_eq!(named_color_to_rgb("coral"), Some(Rgb::new(255, 127, 80)));
    assert_eq!(named_color_to_rgb("invalid"), None);
}

#[test]
fn test_parse_color() {
    assert_eq!(parse_color("#FF0000"), Some(Rgb::new(255, 0, 0)));
    assert_eq!(parse_color("red"), Some(Rgb::new(255, 0, 0)));
    assert_eq!(parse_color("invalid"), None);
}

#[test]
fn hex_form_reads_back_as_the_same_color() {
    for c in [Rgb::new(0, 0, 0), Rgb::new(255, 255, 255), Rgb::new(59, 130, 246), Rgb::new(10, 171, 205)] {
        assert_eq!(Rgb::from_hex(&c.to_hex()), Some(c));
    }
    for c in [Rgba::new(0, 0, 0, 0), Rgba::new(255, 128, 7, 200), Rgba::new(1, 2, 3, 4)] {
        assert_eq!(Rgba::from_hex(&c.to_hex()), Some(c));
    }
}

#[test]
fn rgba_to_hex_has_alpha_pair() {
    assert_eq!(Rgba::new(255, 0, 0, 128).to_hex(), "#FF000080");
    assert_eq!(Rgba::new(0x3b, 0x82, 0xf6, 0x0a).to_hex(), "#3B82F60A");
}

#[test]
fn packed_value_unpacks_to_channels() {
    let c = Rgb::new(0x12, 0x34, 0x56);
    let v = c.to_u32();
    assert_eq!(v, 0x123456);
    assert_eq!(Rgb::new(((v >> 16) & 0xFF) as u8, ((v >> 8) & 0xFF) as u8, (v & 0xFF) as u8), c);
    assert_eq!(Rgba::new(1, 2, 3, 4).rgb(), Rgb::new(1, 2, 3));
}

#[test]
fn hex_text_is_trimmed_and_hashes_dropped() {
    assert_eq!(Rgb::from_hex("  #abc \n"), Some(Rgb::new(0xAA, 0xBB, 0xCC)));
    assert_eq!(Rgb::from_hex("##ffffff"), Some(Rgb::new(255, 255, 255)));
    assert_eq!(Rgb::from_hex("\u{3000}#000"), Some(Rgb::new(0, 0, 0)));
    assert_eq!(Rgb::from_hex(""), None);
    assert_eq!(Rgb::from_hex("#ABCD"), None);
}

#[test]
fn hex_pairs_accept_a_plus_sign_as_from_str_radix_does() {
    assert_eq!(Rgb::from_hex("+F0000"), Some(Rgb::new(15, 0, 0)));
    assert_eq!(Rgb::from_hex("+00"), None);
    assert_eq!(Rgb::from_hex("-F0000"), None);
}

#[test]
fn non_ascii_hex_text_is_rejected() {
    // six bytes, three two-byte characters: slices fall on character boundaries
    assert_eq!(Rgb::from_hex("ééé"), None);
}

#[test]
fn named_colors_ignore_case() {
    assert_eq!(named_color_to_rgb("Coral"), named_color_to_rgb("coral"));
    assert_eq!(named_color_to_rgb("AliceBlue"), Some(Rgb::new(0xF0, 0xF8, 0xFF)));
    assert_eq!(named_color_to_rgb("yellowgreen"), Some(Rgb::new(0x9A, 0xCD, 0x32)));
    assert_eq!(named_color_to_rgb(""), None);
}

#[test]
fn parse_color_alpha_falls_back_to_names() {
    assert_eq!(parse_color_alpha("#FF000080"), Some(Rgba::new(255, 0, 0, 128)));
    assert_eq!(parse_color_alpha("coral"), Some(Rgba::new(255, 127, 80, 255)));
    assert_eq!(parse_color_alpha("nope"), None);
}

#[test]
fn hex_takes_priority_over_names() {
    // "add" is a valid 3-digit hex color and not a color name
    assert_eq!(parse_color("add"), Some(Rgb::new(0xAA, 0xDD, 0xDD)));
}

#[test]
fn alpha_reading_extends_the_plain_reading() {
    for s in ["coral", "CORAL", "#3B82F6", "3b82f6", "#abc", " #FFF ", "blue", "Gold", "navy"] {
        let plain = parse_color(s).unwrap();
        let alpha = parse_color_alpha(s).unwrap();
        assert_eq!((alpha.r, alpha.g, alpha.b, alpha.a), (plain.r, plain.g, plain.b, 255));
    }
    assert_eq!(parse_color_alpha("coral"), Some(Rgba::new(255, 127, 80, 255)));
    assert_eq!(parse_color_alpha("#3B82F680"), Some(Rgba::new(59, 130, 246, 128)));
    assert_eq!(parse_color_alpha("#3B82F680"), Rgba::from_hex("#3B82F680"));
    assert_eq!(parse_color("#3B82F680"), None);
}

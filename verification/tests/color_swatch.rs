use ccf_gpui_widgets::utils::color::{rgb_hex_parsable, rgba_hex_parsable, Rgb};
use ccf_gpui_widgets::widgets::color_swatch::{ColorSwatch, ColorSwatchEvent};

fn change_text(e: ColorSwatchEvent) -> String {
    match e {
        ColorSwatchEvent::Change(v) => v,
    }
}

#[test]
fn swatch_starts_black() {
    let s = ColorSwatch::new();
    assert_eq!(s.value(), "#000000");
    assert_eq!(s.rgb(), Rgb::new(0, 0, 0));
    assert_eq!(s.alpha(), 255);
    assert!(s.is_enabled());
    assert!(s.is_input_valid());
    assert!(!s.is_picker_open());
}

#[test]
fn swatch_with_value_hex_and_name() {
    let s = ColorSwatch::new().with_value("#3b82f6");
    assert_eq!(s.value(), "#3B82F6");
    assert_eq!(s.rgb(), Rgb::new(59, 130, 246));
    let s = ColorSwatch::new().with_value("red");
    assert_eq!(s.value(), "#FF0000");
    let s = ColorSwatch::new().with_value("not a colour");
    assert_eq!(s.value(), "#000000");
}

#[test]
fn swatch_with_value_takes_input_sync_once() {
    let mut s = ColorSwatch::new().with_value("#00FF00");
    assert_eq!(s.take_input_sync(), Some("#00FF00".to_string()));
    assert_eq!(s.take_input_sync(), None);
}

#[test]
fn swatch_alpha_written_only_when_enabled_and_translucent() {
    let mut s = ColorSwatch::new().with_alpha(true);
    let e = s.set_value("#FF000080");
    assert_eq!(change_text(e), "#FF000080");
    assert_eq!(s.alpha(), 0x80);
    let e = s.update_alpha(255);
    assert_eq!(change_text(e), "#FF0000");

    let mut plain = ColorSwatch::new();
    plain.set_value("#FF000080");
    assert_eq!(plain.value(), "#FF0000");
    assert_eq!(plain.alpha(), 0x80);
}

#[test]
fn swatch_input_change_marks_validity() {
    let mut s = ColorSwatch::new();
    let e = s.handle_input_change("blue");
    assert_eq!(e.map(change_text), Some("#0000FF".to_string()));
    assert!(s.is_input_valid());
    let e = s.handle_input_change("#12");
    assert!(e.is_none());
    assert!(!s.is_input_valid());
    assert_eq!(s.value(), "#0000FF");
}

#[test]
fn swatch_input_commit_keeps_alpha() {
    let mut s = ColorSwatch::new().with_alpha(true);
    let e = s.handle_input_commit("#11223344");
    assert_eq!(e.map(change_text), Some("#11223344".to_string()));
    assert_eq!(s.rgb(), Rgb::new(0x11, 0x22, 0x33));
    assert_eq!(s.alpha(), 0x44);
    assert!(s.handle_input_commit("zzz").is_none());
    assert!(!s.is_input_valid());
}

#[test]
fn swatch_update_from_rgb_announces() {
    let mut s = ColorSwatch::new();
    let e = s.update_from_rgb(1, 2, 3);
    assert_eq!(change_text(e), "#010203");
    assert_eq!(s.parse_display_color(), 0x010203FF);
}

#[test]
fn swatch_picker_open_close_and_original() {
    let mut s = ColorSwatch::new().with_value("#102030");
    s.click_swatch();
    assert!(s.is_picker_open());
    s.update_from_rgb(255, 255, 255);
    assert_eq!(s.parse_original_color(), 0x102030FF);
    s.click_swatch();
    assert!(!s.is_picker_open());
    s.open_picker();
    assert!(s.is_picker_open());
    s.close_picker();
    assert!(!s.is_picker_open());
}

#[test]
fn swatch_disabled_ignores_clicks() {
    let mut s = ColorSwatch::new().with_enabled(false);
    s.click_swatch();
    assert!(!s.is_picker_open());
    s.set_enabled(true);
    s.click_swatch();
    assert!(s.is_picker_open());
}

#[test]
fn hex_parsable_checks_char_boundaries() {
    assert!(rgb_hex_parsable("#ABC"));
    assert!(rgb_hex_parsable("hello"));
    assert!(!rgb_hex_parsable("é1"));
    assert!(rgba_hex_parsable("#11223344"));
    assert!(!rgba_hex_parsable("#1é2"));
    assert!(!rgba_hex_parsable("aé"));
}

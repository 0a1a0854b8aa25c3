use ccf_gpui_widgets::widgets::focus_navigation::{handle_tab_navigation, FocusMove};
use ccf_gpui_widgets::theme::{get_theme, get_theme_or, Palette, Theme};
use ccf_gpui_widgets::utils::path::PathInfo;
use ccf_gpui_widgets::widgets::cursor_blink::{visible_after_millis, CursorBlink};
use ccf_gpui_widgets::widgets::selection::StringItem;

#[test]
fn blink_cycle_shows_then_hides() {
    assert!(visible_after_millis(0));
    assert!(visible_after_millis(529));
    assert!(!visible_after_millis(530));
    assert!(!visible_after_millis(1059));
    assert!(visible_after_millis(1060));
    assert!(visible_after_millis(1060 * 7 + 100));
    assert_eq!(CursorBlink::blink_period(), std::time::Duration::from_millis(530));
    let mut blink = CursorBlink::new();
    blink.reset();
    assert!(blink.is_visible());
    let _copy = blink.clone();
}

#[test]
fn string_items() {
    let item = StringItem::new("medium");
    assert_eq!(item.value(), "medium");
    assert_eq!(item.clone().into_value(), "medium".to_string());
    assert_eq!(StringItem::new(String::from("a b")), StringItem::new("a b"));
}

#[test]
fn path_info_queries() {
    let empty = PathInfo::empty();
    assert!(empty.fully_exists());
    assert!(empty.full_path_string().is_empty());
    let info = PathInfo {
        existing_canonical: "/tmp".to_string(),
        non_existing_suffix: "a/b.txt".to_string(),
        full_path: "/tmp/a/b.txt".to_string(),
    };
    assert!(!info.fully_exists());
    assert_eq!(info.full_path_string(), "/tmp/a/b.txt");
    assert!(PathInfo::default().full_path.is_empty());
}

#[test]
fn themes_and_builders() {
    let dark = Theme::dark();
    assert_eq!(dark.bg_primary, 0x1e1e1e);
    assert_eq!(Theme::default().bg_primary, dark.bg_primary);
    assert_eq!(Theme::light().bg_primary, 0xf5f5f5);
    let custom = Theme::dark().with_accent(0x00ff00).with_primary(0xff0000);
    assert_eq!(custom.accent, 0x00ff00);
    assert_eq!(custom.primary, 0xff0000);
    assert_eq!(custom.bg_input, dark.bg_input);
    let t = Theme::light().with_delete_bg_hover(1).with_bg_path_hover(2).with_selection(3);
    assert_eq!((t.delete_bg_hover, t.bg_path_hover, t.selection), (1, 2, 3));
    let p = Palette::dark().with_primary(0xe94560).with_accent(0x0f3460);
    assert_eq!((p.primary, p.accent, p.bg), (0xe94560, 0x0f3460, 0x1e1e1e));
    assert_eq!(Palette::default().bg, Palette::dark().bg);
    assert_eq!(Palette::light().text, 0x1a1a1a);
}

#[test]
fn theme_lookup_prefers_custom_then_global() {
    let light = Theme::light();
    let custom = Theme::dark().with_primary(0x123456);
    assert_eq!(get_theme(None).bg_primary, Theme::dark().bg_primary);
    assert_eq!(get_theme(Some(&light)).bg_primary, light.bg_primary);
    assert_eq!(get_theme_or(Some(&light), Some(&custom)).primary, 0x123456);
    assert_eq!(get_theme_or(Some(&light), None).bg_primary, light.bg_primary);
    assert_eq!(get_theme_or(None, None).bg_primary, 0x1e1e1e);
}

#[test]
fn tab_keys_move_focus() {
    assert_eq!(handle_tab_navigation("tab", false), Some(FocusMove::Next));
    assert_eq!(handle_tab_navigation("tab", true), Some(FocusMove::Prev));
    assert_eq!(handle_tab_navigation("enter", true), None);
}

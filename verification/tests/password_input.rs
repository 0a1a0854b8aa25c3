use ccf_gpui_widgets::widgets::editing_core::EditingCore;
use ccf_gpui_widgets::widgets::password_input::{
    content_byte_to_display_byte, count_chars, display_byte_to_content_byte, display_content,
};
use ccf_gpui_widgets::widgets::sensitive_string::SensitiveString;

#[test]
fn masked_display_has_one_bullet_per_character() {
    let core = EditingCore::<String>::new().with_content("héllo").with_masked(true);
    assert_eq!(display_content(&core), "●●●●●");
    let shown = EditingCore::<String>::new().with_content("héllo");
    assert_eq!(display_content(&shown), "héllo");
    let empty = EditingCore::<String>::new().with_masked(true);
    assert_eq!(display_content(&empty), "");
}

#[test]
fn content_offsets_map_to_bullet_offsets() {
    let core = EditingCore::<String>::new().with_content("héllo").with_masked(true);
    // 'h' is 1 byte, 'é' 2 bytes: the second 'l' starts at byte 4, character 3
    assert_eq!(content_byte_to_display_byte(&core, 0), 0);
    assert_eq!(content_byte_to_display_byte(&core, 1), 3);
    assert_eq!(content_byte_to_display_byte(&core, 3), 6);
    assert_eq!(content_byte_to_display_byte(&core, 4), 9);
    assert_eq!(content_byte_to_display_byte(&core, 6), 15);
}

#[test]
fn display_offsets_map_back_to_character_starts() {
    let core = EditingCore::<String>::new().with_content("héllo").with_masked(true);
    assert_eq!(display_byte_to_content_byte(&core, 0), 0);
    assert_eq!(display_byte_to_content_byte(&core, 3), 1);
    assert_eq!(display_byte_to_content_byte(&core, 7), 3);
    assert_eq!(display_byte_to_content_byte(&core, 8), 3);
    assert_eq!(display_byte_to_content_byte(&core, 9), 4);
    assert_eq!(display_byte_to_content_byte(&core, 15), 6);
    assert_eq!(display_byte_to_content_byte(&core, 100), 6);
}

#[test]
fn offsets_round_trip_through_the_display() {
    let core = EditingCore::<String>::new().with_content("añb€c").with_masked(true);
    for pos in [0usize, 1, 3, 4, 7, 8] {
        let d = content_byte_to_display_byte(&core, pos);
        assert_eq!(display_byte_to_content_byte(&core, d), pos);
    }
}

#[test]
fn unmasked_offsets_are_unchanged() {
    let core = EditingCore::<String>::new().with_content("héllo");
    assert_eq!(content_byte_to_display_byte(&core, 3), 3);
    assert_eq!(display_byte_to_content_byte(&core, 5), 5);
    let empty = EditingCore::<String>::new().with_masked(true);
    assert_eq!(display_byte_to_content_byte(&empty, 7), 7);
}

#[test]
fn sensitive_storage_is_masked_the_same_way() {
    let core = EditingCore::<SensitiveString>::new().with_content("pw€").with_masked(true);
    assert_eq!(display_content(&core), "●●●");
    assert_eq!(content_byte_to_display_byte(&core, 2), 6);
    assert_eq!(display_byte_to_content_byte(&core, 6), 2);
    assert_eq!(count_chars("pw€"), 3);
}

use ccf_gpui_widgets::widgets::password_input::{PasswordInput, PasswordInputEvent};
use ccf_gpui_widgets::widgets::sensitive_string::SecretText;
use secrecy::{ExposeSecret, SecretString};

fn changed_to(e: PasswordInputEvent) -> String {
    match e {
        PasswordInputEvent::Change(v) => v.0.expose_secret().to_string(),
        _ => panic!("expected a change"),
    }
}

fn value_of(p: &PasswordInput) -> String {
    p.value().0.expose_secret().to_string()
}

#[test]
fn password_field_applies_pending_values_once() {
    let mut p = PasswordInput::new().placeholder("Password").with_value("s3cret");
    assert_eq!(value_of(&p), "");
    p.apply_pending();
    assert_eq!(value_of(&p), "s3cret");
    assert_eq!(p.display_content(), "●●●●●●");
    p.apply_pending();
    assert_eq!(value_of(&p), "s3cret");
    assert!(!p.is_showing_password());
    p.toggle_visibility();
    assert!(p.is_showing_password());
    assert_eq!(p.display_content(), "s3cret");
    assert!(!p.editor().is_masked());
    p.toggle_visibility();
    assert!(p.editor().is_masked());
}

#[test]
fn password_edits_announce_changes() {
    let mut p = PasswordInput::new();
    assert_eq!(changed_to(p.set_value("abc")), "abc");
    assert_eq!(changed_to(p.handle_insert_text("d")), "abcd");
    assert_eq!(changed_to(p.handle_delete_backward().unwrap()), "abc");
    assert!(p.handle_delete_forward().is_none());
    assert_eq!(changed_to(p.paste("x\r\ny\n")), "abcxy");
    assert!(p.cut().is_none());
    assert_eq!(changed_to(p.handle_delete_word_backward().unwrap()), "abcx");
    assert!(p.handle_delete_word_forward().is_none());
    assert_eq!(p.content_byte_to_display_byte(2), 6);
    assert_eq!(p.display_byte_to_content_byte(7), 2);
    let _ = PasswordInput::new().theme(ccf_gpui_widgets::theme::Theme::dark());
}

#[test]
fn password_secret_in_and_out() {
    let mut p = PasswordInput::new();
    let e = p.set_value_secret(&SecretText(SecretString::from("hunter2".to_string())));
    assert_eq!(changed_to(e), "hunter2");
    assert_eq!(value_of(&p), "hunter2");
    assert_eq!(p.editor().cursor(), 7);
}

#[test]
fn password_cursor_keys_move_and_select() {
    let mut p = PasswordInput::new();
    p.set_value("abc");
    p.handle_move_left();
    assert_eq!(p.editor().cursor(), 2);
    p.handle_move_to_start();
    assert_eq!(p.editor().cursor(), 0);
    p.handle_select_right();
    assert_eq!(p.editor().selection(), Some((0, 1)));
    p.handle_select_to_end();
    assert_eq!(p.editor().selection(), Some((0, 3)));
    p.handle_move_right();
    assert_eq!(p.editor().cursor(), 3);
    assert_eq!(p.editor().selection(), None);
    p.handle_select_word_left();
    assert_eq!(p.editor().selection(), Some((2, 3)));
    p.handle_select_all();
    assert_eq!(p.editor().selection(), Some((0, 3)));
    p.handle_move_word_left();
    p.handle_move_to_end();
    p.handle_select_left();
    p.handle_select_to_start();
    assert_eq!(p.editor().selection(), Some((0, 3)));
    p.handle_move_word_right();
    p.handle_select_word_right();
    assert!(p.is_cursor_visible() || !p.is_cursor_visible());
}

#[test]
fn password_mouse_press_and_drag() {
    let mut p = PasswordInput::new();
    p.set_value("abcdef");
    p.mouse_down(true, false, 2);
    assert!(p.is_dragging());
    assert_eq!(p.editor().cursor(), 2);
    p.drag_to(5);
    assert_eq!(p.editor().selection(), Some((2, 5)));
    p.stop_drag();
    assert!(!p.is_dragging());
    p.drag_to(0);
    assert_eq!(p.editor().selection(), Some((2, 5)));
    // a press that focuses the field keeps the selection
    p.mouse_down(false, false, 0);
    assert_eq!(p.editor().selection(), Some((2, 5)));
    assert!(!p.is_dragging());
    // shift extends from the cursor
    p.mouse_down(true, true, 100);
    assert_eq!(p.editor().cursor(), 6);
    assert!(matches!(p.on_blur(), PasswordInputEvent::Blur));
    assert!(!p.is_dragging());
}

#[test]
fn password_typed_keys() {
    let mut p = PasswordInput::new();
    assert_eq!(changed_to(p.key_typed(false, false, false, Some("x")).unwrap()), "x");
    assert!(p.key_typed(false, true, false, Some("a")).is_none());
    assert!(p.key_typed(false, false, false, None).is_none());
    assert_eq!(value_of(&p), "x");
    p.focus_changed(true);
    p.focus_changed(false);
}

#[test]
fn password_change_event_does_not_print_the_secret() {
    let mut p = PasswordInput::new();
    let e = p.set_value("topsecret");
    let shown = format!("{:?}", e);
    assert!(!shown.contains("topsecret"));
    assert!(shown.contains("REDACTED"));
}

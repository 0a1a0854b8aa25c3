use ccf_gpui_widgets::widgets::editing_core::EditingCore;

#[test]
fn test_basic_insert() {
    let mut core = EditingCore::<String>::new();
    core.insert_text("hello");
    assert_eq!(core.content(), "hello");
    assert_eq!(core.cursor(), 5);
}

#[test]
fn test_cursor_movement() {
    let mut core = EditingCore::<String>::new().with_content("hello");
    assert_eq!(core.cursor(), 5);

    core.move_to_start();
    assert_eq!(core.cursor(), 0);

    core.move_right();
    assert_eq!(core.cursor(), 1);

    core.move_to_end();
    assert_eq!(core.cursor(), 5);

    core.move_left();
    assert_eq!(core.cursor(), 4);
}

#[test]
fn test_selection() {
    let mut core = EditingCore::<String>::new().with_content("hello world");

    core.select_all();
    assert_eq!(core.selection(), Some((0, 11)));
    assert_eq!(core.selected_text(), Some("hello world"));

    core.clear_selection();
    assert_eq!(core.selection(), None);
}

#[test]
fn test_delete_selection() {
    let mut core = EditingCore::<String>::new().with_content("hello world");

    core.set_selection(0, 6); // Select "hello "
    assert!(core.delete_selection());
    assert_eq!(core.content(), "world");
    assert_eq!(core.cursor(), 0);
}

#[test]
fn test_insert_replaces_selection() {
    let mut core = EditingCore::<String>::new().with_content("hello world");

    core.set_selection(0, 5); // Select "hello"
    core.insert_text("hi");
    assert_eq!(core.content(), "hi world");
}

#[test]
fn test_word_boundaries() {
    let core = EditingCore::<String>::new().with_content("hello world test");

    assert_eq!(core.next_word_boundary(0), 5); // "hello" ends at 5
    assert_eq!(core.next_word_boundary(5), 11); // "world" ends at 11
    assert_eq!(core.prev_word_boundary(11), 6); // "world" starts at 6
    assert_eq!(core.prev_word_boundary(6), 0); // "hello" starts at 0
}

#[test]
fn test_masked_mode_disables_word_operations() {
    let mut core = EditingCore::<String>::new()
        .with_content("hello world")
        .with_masked(true);

    core.move_to_start();
    core.move_word_right(); // Should move one char, not one word
    assert_eq!(core.cursor(), 1);

    core.move_to_end();
    core.move_word_left(); // Should move one char, not one word
    assert_eq!(core.cursor(), 10);
}

#[test]
fn test_delete_backward() {
    let mut core = EditingCore::<String>::new().with_content("hello");

    assert!(core.delete_backward());
    assert_eq!(core.content(), "hell");
    assert_eq!(core.cursor(), 4);
}

#[test]
fn test_delete_forward() {
    let mut core = EditingCore::<String>::new().with_content("hello");
    core.move_to_start();

    assert!(core.delete_forward());
    assert_eq!(core.content(), "ello");
    assert_eq!(core.cursor(), 0);
}

#[test]
fn test_unicode_handling() {
    let mut core = EditingCore::<String>::new().with_content("cafe\u{0301}"); // café with combining accent

    // Should handle multi-byte characters correctly
    core.move_left();
    assert!(core.cursor() < 5); // Cursor moved before the combining character
}

#[test]
fn typing_a_character_then_backspace_restores() {
    let mut core = EditingCore::<String>::new().with_content("héllo");
    core.set_cursor(3); // after "hé"
    core.insert_text("ü");
    assert_eq!(core.content(), "héüllo");
    assert_eq!(core.cursor(), 5);
    assert!(core.delete_backward());
    assert_eq!(core.content(), "héllo");
    assert_eq!(core.cursor(), 3);
}

#[test]
fn character_steps_respect_multibyte_characters() {
    let core = EditingCore::<String>::new().with_content("aé€😀b");
    // byte offsets of character starts: 0, 1, 3, 6, 10, 11
    assert_eq!(core.next_char_boundary(0), 1);
    assert_eq!(core.next_char_boundary(1), 3);
    assert_eq!(core.next_char_boundary(3), 6);
    assert_eq!(core.next_char_boundary(6), 10);
    assert_eq!(core.next_char_boundary(10), 11);
    assert_eq!(core.next_char_boundary(11), 11);
    assert_eq!(core.next_char_boundary(50), 11);
    assert_eq!(core.prev_char_boundary(11), 10);
    assert_eq!(core.prev_char_boundary(10), 6);
    assert_eq!(core.prev_char_boundary(6), 3);
    assert_eq!(core.prev_char_boundary(3), 1);
    assert_eq!(core.prev_char_boundary(1), 0);
    assert_eq!(core.prev_char_boundary(0), 0);
    for p in [1usize, 3, 6, 10, 11] {
        assert_eq!(core.next_char_boundary(core.prev_char_boundary(p)), p);
    }
}

#[test]
fn word_steps_skip_punctuation_then_word() {
    let core = EditingCore::<String>::new().with_content("foo, bar!! baz");
    assert_eq!(core.next_word_boundary(3), 8);
    assert_eq!(core.next_word_boundary(8), 14);
    assert_eq!(core.prev_word_boundary(14), 11);
    assert_eq!(core.prev_word_boundary(10), 5);
    assert_eq!(core.prev_word_boundary(3), 0);
    let blank = EditingCore::<String>::new().with_content("  ...");
    assert_eq!(blank.prev_word_boundary(5), 0);
    assert_eq!(blank.next_word_boundary(0), 5);
    let unicode = EditingCore::<String>::new().with_content("naïve café");
    assert_eq!(unicode.next_word_boundary(0), 6);
    assert_eq!(unicode.prev_word_boundary(12), 7);
}

#[test]
fn word_deletions() {
    let mut core = EditingCore::<String>::new().with_content("alpha beta gamma");
    assert!(core.delete_word_backward());
    assert_eq!(core.content(), "alpha beta ");
    assert_eq!(core.cursor(), 11);
    core.move_to_start();
    assert!(core.delete_word_forward());
    assert_eq!(core.content(), " beta ");
    assert_eq!(core.cursor(), 0);
    assert!(!EditingCore::<String>::new().delete_word_forward());
    assert!(!EditingCore::<String>::new().delete_word_backward());
}

#[test]
fn masked_word_deletion_is_by_character() {
    let mut core = EditingCore::<String>::new().with_content("abc def").with_masked(true);
    assert!(core.is_masked());
    assert!(core.delete_word_backward());
    assert_eq!(core.content(), "abc de");
    core.set_masked(false);
    assert!(core.delete_word_backward());
    assert_eq!(core.content(), "abc ");
}

#[test]
fn selecting_extends_from_the_anchor() {
    let mut core = EditingCore::<String>::new().with_content("hello world");
    core.select_left();
    core.select_left();
    assert_eq!(core.selection(), Some((9, 11)));
    assert_eq!(core.selected_text(), Some("ld"));
    core.select_word_left();
    assert_eq!(core.selection(), Some((6, 11)));
    core.select_to_start();
    assert_eq!(core.selection(), Some((0, 11)));
    core.select_right();
    assert_eq!(core.selection(), Some((1, 11)));
    core.select_word_right();
    assert_eq!(core.selection(), Some((5, 11)));
    core.select_to_end();
    assert_eq!(core.selection(), None);
    assert_eq!(core.cursor(), 11);
}

#[test]
fn set_selection_clamps_and_orders() {
    let mut core = EditingCore::<String>::new().with_content("abcdef");
    core.set_selection(10, 2);
    assert_eq!(core.selection(), Some((2, 6)));
    assert_eq!(core.cursor(), 6);
    assert_eq!(core.selected_text(), Some("cdef"));
    core.set_selection(3, 3);
    assert_eq!(core.selection(), None);
    assert_eq!(core.cursor(), 3);
}

#[test]
fn selected_text_off_boundaries_is_none() {
    let mut core = EditingCore::<String>::new().with_content("é");
    core.set_selection(0, 1);
    assert_eq!(core.selected_text(), None);
}

#[test]
fn shift_click_selection() {
    let mut core = EditingCore::<String>::new().with_content("hello world");
    core.set_cursor(2);
    core.start_selection_from_cursor();
    core.extend_selection_to(7);
    assert_eq!(core.selection(), Some((2, 7)));
    core.extend_selection_to(100);
    assert_eq!(core.selection(), Some((2, 11)));
    core.extend_selection_to(2);
    assert_eq!(core.selection(), None);
}

#[test]
fn set_content_resets_selection_and_moves_to_end() {
    let mut core = EditingCore::<String>::default();
    core.set_content("abc");
    core.select_all();
    core.set_content("xy");
    assert_eq!(core.selection(), None);
    assert_eq!(core.cursor(), 2);
    core.set_cursor(99);
    assert_eq!(core.cursor(), 2);
}

#[test]
fn backspace_and_delete_at_the_ends_do_nothing() {
    let mut core = EditingCore::<String>::new().with_content("ab");
    assert!(!core.delete_forward());
    core.move_to_start();
    assert!(!core.delete_backward());
    assert_eq!(core.content(), "ab");
}

#[test]
fn insert_text_reports_whether_the_content_changed() {
    let mut core = EditingCore::<String>::new().with_content("abc");
    assert!(!core.insert_text(""));
    assert_eq!(core.content(), "abc");
    assert!(core.insert_text("d"));
    assert_eq!(core.content(), "abcd");
    core.select_all();
    assert!(!core.insert_text("abcd"));
    assert_eq!(core.content(), "abcd");
    core.select_all();
    assert!(core.insert_text(""));
    assert_eq!(core.content(), "");
}

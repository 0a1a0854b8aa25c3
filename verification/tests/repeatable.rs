use ccf_gpui_widgets::theme::Theme;
use ccf_gpui_widgets::widgets::directory_picker::DirectoryPickerValidation;
use ccf_gpui_widgets::widgets::file_picker::{FileMode, FilePickerValidation, MissingDirectories};
use ccf_gpui_widgets::widgets::path_display::ValidationDisplay;
use ccf_gpui_widgets::widgets::repeatable_directory_picker::{
    RepeatableDirectoryPicker, RepeatableDirectoryPickerEvent,
};
use ccf_gpui_widgets::widgets::repeatable_file_picker::{
    RepeatableFilePicker, RepeatableFilePickerEvent,
};
use ccf_gpui_widgets::widgets::repeatable_text_input::{
    Activation, RemovalFocus, RepeatableTextInput, RepeatableTextInputEvent,
};
use tempfile::TempDir;

fn strings(v: &[&str]) -> Vec<String> {
    v.iter().map(|s| s.to_string()).collect()
}

fn text_change(e: RepeatableTextInputEvent) -> Vec<String> {
    match e {
        RepeatableTextInputEvent::Change(v) => v,
        other => panic!("expected a change, got {:?}", other),
    }
}

#[test]
fn text_entries_are_padded_to_the_minimum() {
    let mut r = RepeatableTextInput::new().with_values(strings(&["a"])).min_entries(3).placeholder("value");
    r.initialize_entries();
    assert_eq!(r.entry_count(), 3);
    assert_eq!(r.entry(0), "a");
    assert_eq!(r.entry(2), "");
    assert_eq!(r.values(), strings(&["a"]));
    r.initialize_entries();
    assert_eq!(r.entry_count(), 3);
    let mut e = RepeatableTextInput::new().min_entries(0);
    e.initialize_entries();
    assert_eq!(e.entry_count(), 1);
    let mut more = RepeatableTextInput::new().with_values(strings(&["x", "", "y"]));
    more.initialize_entries();
    assert_eq!(more.entry_count(), 3);
    assert_eq!(more.values(), strings(&["x", "y"]));
}

#[test]
fn text_entries_add_remove_and_edit() {
    let mut r = RepeatableTextInput::new().with_values(strings(&["a", "b"])).theme(Theme::dark());
    r.initialize_entries();
    let (added, change) = r.add_entry();
    assert!(matches!(added, RepeatableTextInputEvent::EntryAdded(2)));
    assert_eq!(text_change(change), strings(&["a", "b"]));
    assert_eq!(text_change(r.set_entry(2, "c")), strings(&["a", "b", "c"]));
    let (removed, change, focus) = r.remove_entry(2, true).unwrap();
    assert!(matches!(removed, RepeatableTextInputEvent::EntryRemoved(2)));
    assert_eq!(text_change(change), strings(&["a", "b"]));
    assert_eq!(focus, RemovalFocus::RemoveButton(1));
    let (_, _, focus) = r.remove_entry(0, true).unwrap();
    assert_eq!(focus, RemovalFocus::FirstEntry);
    assert!(r.remove_entry(0, true).is_none());
    assert!(r.remove_entry(5, false).is_none());
    assert_eq!(r.entry_count(), 1);
    assert_eq!(r.entry(0), "b");
    r.add_entry();
    r.add_entry();
    let (_, _, focus) = r.remove_entry(0, true).unwrap();
    assert_eq!(focus, RemovalFocus::RemoveButton(0));
    let (_, _, focus) = r.remove_entry(0, false).unwrap();
    assert_eq!(focus, RemovalFocus::Unchanged);
    r.set_enabled(false);
    assert!(!r.is_enabled());
    assert!(RepeatableTextInput::new().with_enabled(true).is_enabled());
}

#[test]
fn file_entries_share_the_configuration() {
    let dir = TempDir::new().unwrap();
    let missing = dir.path().join("out").join("a.txt");
    let mut r = RepeatableFilePicker::new()
        .mode(FileMode::Save)
        .missing_directories(MissingDirectories::Create)
        .extensions(strings(&["txt"]))
        .placeholder("file")
        .browse_shortcut(false)
        .validation_display(ValidationDisplay::MessageOnly)
        .theme(Theme::light())
        .min_entries(2)
        .with_values(strings(&[missing.to_str().unwrap()]));
    r.initialize_entries();
    assert_eq!(r.entries().len(), 2);
    assert!(r.entries()[1].needs_directory_creation());
    assert_eq!(r.values(), strings(&[missing.to_str().unwrap()]));
    assert_eq!(
        r.validate_all(),
        vec![FilePickerValidation::WillCreatePath, FilePickerValidation::Empty]
    );
    assert!(r.is_all_valid());
    assert_eq!(r.directories_to_create(), strings(&[dir.path().join("out").to_str().unwrap()]));
    match r.set_entry_value(1, "/no/such/dir/file.txt") {
        Some(RepeatableFilePickerEvent::Change(v)) => assert_eq!(v.len(), 2),
        _ => panic!("a changed value is announced"),
    }
    assert!(r.set_entry_value(1, "/no/such/dir/file.txt").is_none());
    let (added, _) = r.add_entry();
    assert!(matches!(added, RepeatableFilePickerEvent::EntryAdded(2)));
    let (removed, _, focus) = r.remove_entry(2, false).unwrap();
    assert!(matches!(removed, RepeatableFilePickerEvent::EntryRemoved(2)));
    assert_eq!(focus, RemovalFocus::Unchanged);
    assert!(r.remove_entry(0, false).is_none());
    r.set_enabled(false);
    assert!(!r.is_enabled());
    assert!(!r.entries()[0].is_enabled());
    let open = RepeatableFilePicker::new().with_enabled(true).with_values(strings(&["/no/such/file"]));
    let mut open = open;
    open.initialize_entries();
    assert!(!open.is_all_valid());
    assert!(open.directories_to_create().is_empty());
}

#[test]
fn directory_entries_validate_against_the_disk() {
    let dir = TempDir::new().unwrap();
    let mut r = RepeatableDirectoryPicker::new()
        .placeholder("dir")
        .browse_shortcut(true)
        .validation_display(ValidationDisplay::Full)
        .theme(Theme::dark())
        .with_enabled(true)
        .min_entries(1)
        .with_values(strings(&[dir.path().to_str().unwrap(), ""]));
    r.initialize_entries();
    assert_eq!(r.entries().len(), 2);
    assert_eq!(
        r.validate_all(),
        vec![DirectoryPickerValidation::Valid, DirectoryPickerValidation::Empty]
    );
    assert!(r.is_all_valid());
    match r.set_entry_value(1, "/no/such/dir") {
        Some(RepeatableDirectoryPickerEvent::Change(v)) => assert_eq!(v.len(), 2),
        _ => panic!("a changed value is announced"),
    }
    assert!(!r.is_all_valid());
    let (removed, change) = r.remove_entry(1).unwrap();
    assert!(matches!(removed, RepeatableDirectoryPickerEvent::EntryRemoved(1)));
    assert!(matches!(change, RepeatableDirectoryPickerEvent::Change(ref v) if v.len() == 1));
    assert!(r.remove_entry(0).is_none());
    let (added, _) = r.add_entry();
    assert!(matches!(added, RepeatableDirectoryPickerEvent::EntryAdded(1)));
    r.set_enabled(false);
    assert!(!r.is_enabled());
    assert_eq!(r.values().len(), 1);
}

#[test]
fn text_key_press_then_click_adds_one_entry() {
    let mut r = RepeatableTextInput::new();
    r.initialize_entries();
    assert_eq!(r.entry_count(), 1);
    assert!(r.activate_add(Activation::KeyBinding).is_some());
    assert!(r.activate_add(Activation::Click).is_none());
    assert_eq!(r.entry_count(), 2);
    // a plain click acts
    assert!(r.activate_add(Activation::Click).is_some());
    assert_eq!(r.entry_count(), 3);
    // removing by key press, then its click
    let e = r.activate_remove(Activation::KeyBinding, 2, true);
    assert!(e.is_some());
    assert!(r.activate_remove(Activation::Click, 1, true).is_none());
    assert_eq!(r.entry_count(), 2);
    // disabled: nothing
    r.set_enabled(false);
    assert!(r.activate_add(Activation::Click).is_none());
    assert!(r.activate_remove(Activation::KeyBinding, 0, false).is_none());
    assert_eq!(r.entry_count(), 2);
}

#[test]
fn text_remove_at_minimum_still_consumes_the_click() {
    let mut r = RepeatableTextInput::new();
    r.initialize_entries();
    assert!(r.activate_remove(Activation::KeyBinding, 0, true).is_none());
    assert_eq!(r.entry_count(), 1);
    // the click that follows is swallowed, the next one acts (and again removes nothing)
    assert!(r.activate_remove(Activation::Click, 0, true).is_none());
    assert!(r.activate_add(Activation::Click).is_some());
    assert_eq!(r.entry_count(), 2);
}

#[test]
fn file_key_press_then_click_adds_one_entry() {
    let mut r = RepeatableFilePicker::new().mode(FileMode::Save);
    r.initialize_entries();
    assert!(r.activate_add(Activation::KeyBinding).is_some());
    assert!(r.activate_add(Activation::Click).is_none());
    assert_eq!(r.values().len(), 0);
    assert!(r.activate_remove(Activation::KeyBinding, 1, false).is_some());
    assert!(r.activate_remove(Activation::Click, 1, false).is_none());
    assert!(r.activate_remove(Activation::Click, 0, false).is_none());
}

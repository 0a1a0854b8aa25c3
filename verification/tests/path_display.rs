use ccf_gpui_widgets::theme::Theme;
use ccf_gpui_widgets::utils::path::PathInfo;
use ccf_gpui_widgets::widgets::directory_picker::{DirectoryPicker, DirectoryPickerEvent};
use ccf_gpui_widgets::widgets::file_picker::{
    file_path_display_from, FileMode, FilePicker, FilePickerEvent, FilePickerValidation,
    MissingDirectories,
};
use ccf_gpui_widgets::widgets::path_display::{PathDisplayInfo, ValidationDisplay};
use std::io::Write;
use tempfile::TempDir;

fn info(existing: &str, suffix: &str, full: &str) -> PathInfo {
    PathInfo {
        existing_canonical: existing.to_string(),
        non_existing_suffix: suffix.to_string(),
        full_path: full.to_string(),
    }
}

fn ranges(d: &PathDisplayInfo) -> Vec<(usize, usize, u32)> {
    d.highlights.iter().map(|h| (h.start, h.end, h.color)).collect()
}

#[test]
fn segments_and_prefixes_build_the_text() {
    let mut d = PathDisplayInfo::new();
    assert!(d.is_empty());
    d.add_segment("", 1);
    assert!(d.is_empty());
    d.add_segment("/home/ü", 1);
    d.add_path_prefix("new", 2);
    d.set_explanation("path does not exist", 3);
    assert_eq!(d.full_text, "/home/ü/new");
    assert_eq!(ranges(&d), vec![(0, 8, 1), (8, 12, 2)]);
    assert_eq!(d.explanation, Some(("path does not exist".to_string(), 3)));
    assert!(!d.is_empty());
    assert!(PathDisplayInfo::default().is_empty());
    assert_eq!(ValidationDisplay::default(), ValidationDisplay::Full);
}

#[test]
fn validation_display_switches() {
    assert!(ValidationDisplay::Full.shows_colors() && ValidationDisplay::Full.shows_message());
    assert!(ValidationDisplay::ColorsOnly.shows_colors() && !ValidationDisplay::ColorsOnly.shows_message());
    assert!(!ValidationDisplay::MessageOnly.shows_colors() && ValidationDisplay::MessageOnly.shows_message());
    assert!(!ValidationDisplay::Hidden.shows_colors() && !ValidationDisplay::Hidden.shows_message());
}

#[test]
fn file_display_for_a_missing_suffix_when_saving() {
    let theme = Theme::dark();
    let p = info("/tmp", "a/b.txt", "/tmp/a/b.txt");
    let d = file_path_display_from(
        &p, false, false, Some("/tmp/a"), Some("b.txt"), false,
        &FileMode::Save, &MissingDirectories::Create, &theme, &ValidationDisplay::Full,
    );
    assert_eq!(d.full_text, "/tmp/a/b.txt");
    assert_eq!(ranges(&d), vec![(0, 4, theme.text_muted), (4, 12, theme.success)]);
    assert_eq!(d.explanation, Some(("path will be created".to_string(), theme.success)));

    let d = file_path_display_from(
        &p, false, false, Some("/tmp/a"), Some("b.txt"), false,
        &FileMode::Save, &MissingDirectories::Okay, &theme, &ValidationDisplay::ColorsOnly,
    );
    assert_eq!(ranges(&d), vec![(0, 4, theme.text_muted), (4, 12, theme.success)]);
    assert_eq!(d.explanation, None);

    let d = file_path_display_from(
        &p, false, false, Some("/tmp/a"), Some("b.txt"), false,
        &FileMode::Save, &MissingDirectories::Error, &theme, &ValidationDisplay::MessageOnly,
    );
    assert_eq!(ranges(&d), vec![(0, 4, theme.text_muted), (4, 12, theme.text_muted)]);
    assert_eq!(d.explanation, Some(("path does not exist".to_string(), theme.error)));
}

#[test]
fn file_display_for_directories_and_existing_files() {
    let theme = Theme::light();
    let p = info("/srv/data", "", "/srv/data");
    let d = file_path_display_from(
        &p, true, false, Some("/srv"), Some("data"), false,
        &FileMode::Open, &MissingDirectories::Error, &theme, &ValidationDisplay::Full,
    );
    assert_eq!(d.full_text, "/srv/data");
    assert_eq!(ranges(&d), vec![(0, 4, theme.text_muted), (4, 9, theme.warning)]);
    assert_eq!(
        d.explanation,
        Some(("file expected, but path is a directory".to_string(), theme.warning))
    );

    let p = info("/srv/x.txt", "", "/srv/x.txt");
    let d = file_path_display_from(
        &p, false, true, Some("/srv"), Some("x.txt"), true,
        &FileMode::Save, &MissingDirectories::Error, &theme, &ValidationDisplay::Hidden,
    );
    assert_eq!(ranges(&d), vec![(0, 4, theme.text_muted), (4, 10, theme.text_muted)]);
    assert_eq!(d.explanation, None);

    let d = file_path_display_from(
        &p, false, true, Some("/srv"), Some("x.txt"), true,
        &FileMode::Open, &MissingDirectories::Error, &theme, &ValidationDisplay::Full,
    );
    assert_eq!(d.full_text, "/srv/x.txt");
    assert_eq!(ranges(&d), vec![(0, 10, theme.text_muted)]);
    assert_eq!(d.explanation, None);

    let p = info("/srv", "new.txt", "/srv/new.txt");
    let d = file_path_display_from(
        &p, false, false, Some("/srv"), Some("new.txt"), true,
        &FileMode::Save, &MissingDirectories::Error, &theme, &ValidationDisplay::Full,
    );
    assert_eq!(ranges(&d), vec![(0, 4, theme.text_muted), (4, 12, theme.success)]);
    assert_eq!(d.explanation, Some(("file will be created".to_string(), theme.success)));

    let empty = info("", "", "");
    let d = file_path_display_from(
        &empty, false, false, None, None, false,
        &FileMode::Open, &MissingDirectories::Error, &theme, &ValidationDisplay::Full,
    );
    assert!(d.is_empty());
}

#[test]
fn file_picker_settings_and_value() {
    let mut picker = FilePicker::new()
        .with_value("/a/b.txt")
        .placeholder("Pick")
        .extensions(vec!["json".to_string()])
        .mode(FileMode::Save)
        .missing_directories(MissingDirectories::Create)
        .browse_shortcut(false)
        .validation_display(ValidationDisplay::Hidden)
        .with_enabled(false)
        .theme(Theme::dark());
    assert_eq!(picker.value(), "/a/b.txt");
    assert!(!picker.is_enabled());
    picker.set_enabled(true);
    assert!(picker.is_enabled());
    assert!(picker.needs_directory_creation());
    assert!(picker.set_value("/a/b.txt").is_none());
    match picker.set_value("/c.txt") {
        Some(FilePickerEvent::Change(v)) => assert_eq!(v, "/c.txt"),
        None => panic!("a changed value is announced"),
    }
    assert_eq!(picker.value(), "/c.txt");
    assert!(!FilePicker::new().needs_directory_creation());
    assert!(!FilePicker::new().is_valid());
    assert_eq!(FilePicker::new().validate(), FilePickerValidation::Empty);
}

#[test]
fn file_picker_directory_to_create() {
    let dir = TempDir::new().unwrap();
    let missing = dir.path().join("x").join("y.txt");
    let picker = FilePicker::new()
        .mode(FileMode::Save)
        .missing_directories(MissingDirectories::Create)
        .with_value(missing.to_str().unwrap());
    assert_eq!(
        picker.directory_to_create(),
        Some(dir.path().join("x").to_str().unwrap().to_string())
    );
    assert!(picker.is_valid());
    let present = dir.path().join("y.txt");
    let picker = picker.with_value(present.to_str().unwrap());
    assert_eq!(picker.directory_to_create(), None);
    let open = FilePicker::new().with_value(missing.to_str().unwrap());
    assert_eq!(open.directory_to_create(), None);
    assert!(!open.is_valid());
    assert_eq!(open.validate(), FilePickerValidation::PathDoesNotExist);
}

#[test]
fn file_picker_display_asks_the_disk() {
    let dir = TempDir::new().unwrap();
    let mut f = tempfile::Builder::new()
        .prefix("here.txt")
        .rand_bytes(0)
        .disable_cleanup(true)
        .tempfile_in(dir.path())
        .unwrap();
    f.write_all(b"x").unwrap();
    let theme = Theme::dark();
    let base = dir.path().to_str().unwrap().to_string();
    let full = format!("{}/here.txt", base);
    let p = info(&full, "", &full);
    let picker = FilePicker::new().mode(FileMode::Save);
    let d = picker.compute_path_display(&p, &theme, &ValidationDisplay::Full);
    assert_eq!(d.full_text, full);
    assert_eq!(ranges(&d), vec![(0, base.len(), theme.text_muted), (base.len(), full.len(), theme.warning)]);
    assert_eq!(
        d.explanation,
        Some(("file exists and will be overwritten".to_string(), theme.warning))
    );
    assert!(picker.with_value(&full).is_valid());
}

#[test]
fn directory_picker_display_and_value() {
    let theme = Theme::dark();
    let picker = DirectoryPicker::new()
        .placeholder("dir")
        .theme(theme)
        .browse_shortcut(true)
        .validation_display(ValidationDisplay::Full)
        .with_enabled(true);
    let d = picker.compute_path_display(&info("/srv", "new/dir", "/srv/new/dir"), &theme, &ValidationDisplay::Full);
    assert_eq!(d.full_text, "/srv/new/dir");
    assert_eq!(ranges(&d), vec![(0, 4, theme.text_muted), (4, 12, theme.error)]);
    assert_eq!(d.explanation, Some(("path does not exist".to_string(), theme.error)));
    let d = picker.compute_path_display(&info("/srv", "", "/srv"), &theme, &ValidationDisplay::Full);
    assert_eq!(ranges(&d), vec![(0, 4, theme.text_muted)]);
    assert_eq!(d.explanation, None);
    let d = picker.compute_path_display(&info("", "", ""), &theme, &ValidationDisplay::Full);
    assert!(d.is_empty());

    let mut picker = picker.with_value("/srv");
    assert_eq!(picker.value(), "/srv");
    assert!(picker.set_value("/srv").is_none());
    match picker.set_value("/tmp") {
        Some(DirectoryPickerEvent::Change(v)) => assert_eq!(v, "/tmp"),
        None => panic!("a changed value is announced"),
    }
    let dir = TempDir::new().unwrap();
    let mut picker = picker.with_value(dir.path().to_str().unwrap());
    assert!(picker.is_valid());
    picker.set_enabled(false);
    assert!(!picker.is_enabled());
    assert!(!DirectoryPicker::new().is_valid());
}

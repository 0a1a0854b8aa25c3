use ccf_gpui_widgets::utils::path::find_existing_prefix;
use ccf_gpui_widgets::widgets::directory_picker::dropped_folder;
use ccf_gpui_widgets::widgets::file_picker::{
    parent_present_from, validate_file_path, FileMode, FilePickerValidation, MissingDirectories,
};
use tempfile::TempDir;

#[test]
fn parent_counts_when_on_disk_or_empty() {
    assert!(parent_present_from(Some(""), false));
    assert!(parent_present_from(Some("/x"), true));
    assert!(!parent_present_from(Some("/x"), false));
    assert!(!parent_present_from(None, true));
}

#[test]
fn bare_name_to_save_goes_in_the_working_directory() {
    let v = validate_file_path("zz_no_such_file_7731.txt", &FileMode::Save, &MissingDirectories::Error);
    assert_eq!(v, FilePickerValidation::Valid);
    let v = validate_file_path(
        "/zz_no_such_dir_7731/new.txt",
        &FileMode::Save,
        &MissingDirectories::Error,
    );
    assert_eq!(v, FilePickerValidation::ParentDoesNotExist);
    let v = validate_file_path(
        "/zz_no_such_dir_7731/new.txt",
        &FileMode::Save,
        &MissingDirectories::Create,
    );
    assert_eq!(v, FilePickerValidation::WillCreatePath);
}

#[test]
fn dropped_folder_rules() {
    assert_eq!(dropped_folder("/a/b", true, false, Some("/a")), Some("/a/b"));
    assert_eq!(dropped_folder("/a/f.txt", false, true, Some("/a")), Some("/a"));
    assert_eq!(dropped_folder("f.txt", false, true, Some("")), None);
    assert_eq!(dropped_folder("/a/f.txt", false, true, None), None);
    assert_eq!(dropped_folder("/a/x", false, false, Some("/a")), None);
}

#[test]
fn split_with_spaces_and_non_ascii_names() {
    let temp = TempDir::new().unwrap();
    let base = temp.path().to_str().unwrap().to_string();
    let deep = format!("{}/John Smith/données/new.txt", base);
    let (existing, suffix) = find_existing_prefix(&deep);
    assert_eq!(existing, base);
    assert_eq!(suffix, "John Smith/données/new.txt");
}

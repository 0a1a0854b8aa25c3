use ccf_gpui_widgets::widgets::file_picker::{
    classify_file_path, validate_file_path, FileMode, FilePickerValidation, MissingDirectories,
};
use std::str::FromStr;
use std::io::Write;
use tempfile::TempDir;

fn setup_test_dir() -> TempDir {
    let dir = TempDir::new().unwrap();
    // Create a test file
    let mut file = tempfile::Builder::new()
        .prefix("existing_file.txt")
        .rand_bytes(0)
        .disable_cleanup(true)
        .tempfile_in(dir.path())
        .unwrap();
    file.write_all(b"test content\n").unwrap();
    // Create a subdirectory
    tempfile::Builder::new()
        .prefix("subdir")
        .rand_bytes(0)
        .disable_cleanup(true)
        .tempdir_in(dir.path())
        .unwrap();
    dir
}

#[test]
fn file_picker_test_validate_empty_path() {
    assert_eq!(
        validate_file_path("", &FileMode::Open, &MissingDirectories::Error),
        FilePickerValidation::Empty
    );
    assert_eq!(
        validate_file_path("", &FileMode::Save, &MissingDirectories::Error),
        FilePickerValidation::Empty
    );
}

#[test]
fn test_validate_open_existing_file() {
    let dir = setup_test_dir();
    let file_path = dir.path().join("existing_file.txt");

    assert_eq!(
        validate_file_path(file_path.to_str().unwrap(), &FileMode::Open, &MissingDirectories::Error),
        FilePickerValidation::Valid
    );
}

#[test]
fn test_validate_open_non_existing_file() {
    let dir = setup_test_dir();
    let file_path = dir.path().join("non_existing.txt");

    assert_eq!(
        validate_file_path(file_path.to_str().unwrap(), &FileMode::Open, &MissingDirectories::Error),
        FilePickerValidation::PathDoesNotExist
    );
}

#[test]
fn test_validate_open_directory() {
    let dir = setup_test_dir();
    let subdir_path = dir.path().join("subdir");

    assert_eq!(
        validate_file_path(subdir_path.to_str().unwrap(), &FileMode::Open, &MissingDirectories::Error),
        FilePickerValidation::IsDirectory
    );
}

#[test]
fn test_validate_save_existing_file() {
    let dir = setup_test_dir();
    let file_path = dir.path().join("existing_file.txt");

    assert_eq!(
        validate_file_path(file_path.to_str().unwrap(), &FileMode::Save, &MissingDirectories::Error),
        FilePickerValidation::WillOverwrite
    );
}

#[test]
fn test_validate_save_new_file_parent_exists() {
    let dir = setup_test_dir();
    let file_path = dir.path().join("new_file.txt");

    assert_eq!(
        validate_file_path(file_path.to_str().unwrap(), &FileMode::Save, &MissingDirectories::Error),
        FilePickerValidation::Valid
    );
}

#[test]
fn test_validate_save_parent_missing_error() {
    let dir = setup_test_dir();
    let file_path = dir.path().join("missing_dir/new_file.txt");

    assert_eq!(
        validate_file_path(file_path.to_str().unwrap(), &FileMode::Save, &MissingDirectories::Error),
        FilePickerValidation::ParentDoesNotExist
    );
}

#[test]
fn test_validate_save_parent_missing_create() {
    let dir = setup_test_dir();
    let file_path = dir.path().join("missing_dir/new_file.txt");

    assert_eq!(
        validate_file_path(file_path.to_str().unwrap(), &FileMode::Save, &MissingDirectories::Create),
        FilePickerValidation::WillCreatePath
    );
}

#[test]
fn test_validate_save_parent_missing_okay() {
    let dir = setup_test_dir();
    let file_path = dir.path().join("missing_dir/new_file.txt");

    assert_eq!(
        validate_file_path(file_path.to_str().unwrap(), &FileMode::Save, &MissingDirectories::Okay),
        FilePickerValidation::WillCreatePath
    );
}

#[test]
fn test_validate_save_directory() {
    let dir = setup_test_dir();
    let subdir_path = dir.path().join("subdir");

    assert_eq!(
        validate_file_path(subdir_path.to_str().unwrap(), &FileMode::Save, &MissingDirectories::Error),
        FilePickerValidation::IsDirectory
    );
}

#[test]
fn relative_file_in_current_directory_has_a_present_parent() {
    // the parent of a bare file name is the empty path, which counts as present
    assert_eq!(
        validate_file_path("surely_missing_file_98765.txt", &FileMode::Save, &MissingDirectories::Error),
        FilePickerValidation::Valid
    );
}

#[test]
fn every_verdict_from_the_classifier() {
    let (open, save) = (FileMode::Open, FileMode::Save);
    let (err, okay, create) = (MissingDirectories::Error, MissingDirectories::Okay, MissingDirectories::Create);
    assert_eq!(classify_file_path(true, false, false, &open, &err), FilePickerValidation::IsDirectory);
    assert_eq!(classify_file_path(false, true, false, &open, &err), FilePickerValidation::Valid);
    assert_eq!(classify_file_path(false, false, true, &open, &err), FilePickerValidation::PathDoesNotExist);
    assert_eq!(classify_file_path(false, true, true, &save, &err), FilePickerValidation::WillOverwrite);
    assert_eq!(classify_file_path(false, false, true, &save, &err), FilePickerValidation::Valid);
    assert_eq!(classify_file_path(false, false, false, &save, &err), FilePickerValidation::ParentDoesNotExist);
    assert_eq!(classify_file_path(false, false, false, &save, &okay), FilePickerValidation::WillCreatePath);
    assert_eq!(classify_file_path(false, false, false, &save, &create), FilePickerValidation::WillCreatePath);
}

#[test]
fn modes_and_policies_by_name() {
    assert_eq!(FileMode::from_str("Save").unwrap(), FileMode::Save);
    assert_eq!(FileMode::from_str("SAVE").unwrap(), FileMode::Save);
    assert_eq!(FileMode::from_str("open").unwrap(), FileMode::Open);
    assert_eq!(FileMode::from_str("whatever").unwrap(), FileMode::Open);
    assert_eq!(FileMode::default(), FileMode::Open);
    assert_eq!(MissingDirectories::from_str("Okay").unwrap(), MissingDirectories::Okay);
    assert_eq!(MissingDirectories::from_str("CREATE").unwrap(), MissingDirectories::Create);
    assert_eq!(MissingDirectories::from_str("error").unwrap(), MissingDirectories::Error);
    assert_eq!(MissingDirectories::from_str("").unwrap(), MissingDirectories::Error);
    assert_eq!(MissingDirectories::default(), MissingDirectories::Error);
}

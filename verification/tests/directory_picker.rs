use ccf_gpui_widgets::widgets::directory_picker::{
    classify_directory_path, validate_directory_path, DirectoryPickerValidation,
};
use std::io::Write;
use tempfile::TempDir;

fn setup_test_dir() -> TempDir {
    let dir = TempDir::new().unwrap();
    // Create a test file
    let mut file = tempfile::Builder::new()
        .prefix("test_file.txt")
        .rand_bytes(0)
        .disable_cleanup(true)
        .tempfile_in(dir.path())
        .unwrap();
    file.write_all(b"test content\n").unwrap();
    // Create a subdirectory
    tempfile::Builder::new()
        .prefix("subdir")
        .rand_bytes(0)
        .disable_cleanup(true)
        .tempdir_in(dir.path())
        .unwrap();
    dir
}

#[test]
fn directory_picker_test_validate_empty_path() {
    assert_eq!(validate_directory_path(""), DirectoryPickerValidation::Empty);
}

#[test]
fn test_validate_existing_directory() {
    let dir = setup_test_dir();
    let subdir_path = dir.path().join("subdir");

    assert_eq!(
        validate_directory_path(subdir_path.to_str().unwrap()),
        DirectoryPickerValidation::Valid
    );
}

#[test]
fn test_validate_root_directory() {
    let dir = setup_test_dir();

    assert_eq!(
        validate_directory_path(dir.path().to_str().unwrap()),
        DirectoryPickerValidation::Valid
    );
}

#[test]
fn test_validate_non_existing_path() {
    let dir = setup_test_dir();
    let missing_path = dir.path().join("missing_dir");

    assert_eq!(
        validate_directory_path(missing_path.to_str().unwrap()),
        DirectoryPickerValidation::PathDoesNotExist
    );
}

#[test]
fn test_validate_file_instead_of_directory() {
    let dir = setup_test_dir();
    let file_path = dir.path().join("test_file.txt");

    assert_eq!(
        validate_directory_path(file_path.to_str().unwrap()),
        DirectoryPickerValidation::IsFile
    );
}

#[test]
fn classifier_verdicts() {
    assert_eq!(classify_directory_path(true, false), DirectoryPickerValidation::Valid);
    assert_eq!(classify_directory_path(false, true), DirectoryPickerValidation::IsFile);
    assert_eq!(classify_directory_path(false, false), DirectoryPickerValidation::PathDoesNotExist);
}

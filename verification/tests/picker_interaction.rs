use ccf_gpui_widgets::widgets::directory_picker::{DirectoryPicker, DirectoryPickerEvent};
use ccf_gpui_widgets::widgets::file_picker::{FileMode, FilePicker, FilePickerEvent};
use std::io::Write;
use tempfile::TempDir;

fn tree() -> (TempDir, String, String, String) {
    let dir = TempDir::new().unwrap();
    let mut file = tempfile::Builder::new()
        .prefix("notes.txt")
        .rand_bytes(0)
        .disable_cleanup(true)
        .tempfile_in(dir.path())
        .unwrap();
    file.write_all(b"x").unwrap();
    let sub = tempfile::Builder::new()
        .prefix("sub")
        .rand_bytes(0)
        .disable_cleanup(true)
        .tempdir_in(dir.path())
        .unwrap();
    let root = dir.path().canonicalize().unwrap().to_str().unwrap().to_string();
    let file_path = format!("{}/notes.txt", root);
    let sub_path = sub.path().canonicalize().unwrap().to_str().unwrap().to_string();
    (dir, root, file_path, sub_path)
}

fn file_change(e: Option<FilePickerEvent>) -> Option<String> {
    e.map(|FilePickerEvent::Change(v)| v)
}

fn dir_change(e: Option<DirectoryPickerEvent>) -> Option<String> {
    e.map(|DirectoryPickerEvent::Change(v)| v)
}

#[test]
fn file_picker_edit_session_commits_parsed_path() {
    let (_d, root, file_path, _sub) = tree();
    let mut p = FilePicker::new();
    assert_eq!(p.start_editing(), Some(String::new()));
    assert!(p.is_editing());
    let e = p.finish_editing("notes.txt", Some(root.as_str()));
    assert!(!p.is_editing());
    assert_eq!(file_change(e), Some(file_path.clone()));
    assert_eq!(p.value(), file_path);
    // the same text again: no announcement
    p.start_editing();
    assert!(p.finish_editing(&file_path, None).is_none());
}

#[test]
fn file_picker_commit_edit_announces_changes_only() {
    let mut p = FilePicker::new().with_value("/a/b.txt");
    p.start_editing();
    assert_eq!(file_change(p.commit_edit("/a/c.txt")), Some("/a/c.txt".to_string()));
    assert!(!p.is_editing());
    assert!(p.commit_edit("/a/c.txt").is_none());
}

#[test]
fn file_picker_disabled_does_not_edit() {
    let mut p = FilePicker::new().with_value("/x").with_enabled(false);
    assert_eq!(p.start_editing(), None);
    assert!(!p.is_editing());
}

#[test]
fn file_picker_escape_then_refocus_once() {
    let mut p = FilePicker::new().with_value("/keep");
    p.start_editing();
    p.cancel_editing();
    assert!(!p.is_editing());
    assert_eq!(p.value(), "/keep");
    assert!(p.take_pending_refocus());
    assert!(!p.take_pending_refocus());
}

#[test]
fn file_picker_focus_lost_takes_text_silently() {
    let mut p = FilePicker::new().with_value("/old");
    p.edit_focus_lost("/ignored", None);
    assert_eq!(p.value(), "/old");
    p.start_editing();
    p.edit_focus_lost("", None);
    assert!(!p.is_editing());
    assert_eq!(p.value(), "");
}

#[test]
fn file_picker_drop_takes_files_only() {
    let (_d, root, file_path, sub) = tree();
    let mut p = FilePicker::new();
    assert!(p.drop_path(&sub).is_none());
    assert_eq!(p.value(), "");
    assert!(p.drop_path(&format!("{}/missing.txt", root)).is_none());
    assert_eq!(file_change(p.drop_path(&file_path)), Some(file_path.clone()));
    assert!(p.drop_path(&file_path).is_none());
    let mut off = FilePicker::new().with_enabled(false);
    assert!(off.drop_path(&file_path).is_none());
    assert_eq!(off.value(), "");
}

#[test]
fn file_picker_dialog_starts_near_the_value() {
    let (_d, root, file_path, sub) = tree();
    let cwd = Some("/work");
    assert_eq!(FilePicker::new().dialog_start_directory(cwd), Some("/work".to_string()));
    assert_eq!(FilePicker::new().dialog_start_directory(None), None);
    let p = FilePicker::new().with_value(&sub);
    assert_eq!(p.dialog_start_directory(cwd), Some(sub.clone()));
    let p = FilePicker::new().with_value(&file_path);
    assert_eq!(p.dialog_start_directory(cwd), Some(root.clone()));
    let p = FilePicker::new().with_value(&format!("{}/gone/x.txt", root));
    assert_eq!(p.dialog_start_directory(cwd), Some("/work".to_string()));
}

#[test]
fn file_picker_browse_request() {
    let p = FilePicker::new()
        .mode(FileMode::Save)
        .extensions(vec!["txt".to_string(), "md".to_string()]);
    let q = p.browse_request(Some("/w")).unwrap();
    assert!(q.save);
    assert_eq!(q.extensions, vec!["txt".to_string(), "md".to_string()]);
    assert_eq!(q.start_directory, Some("/w".to_string()));
    assert!(FilePicker::new().with_enabled(false).browse_request(None).is_none());
    assert!(FilePicker::new().browse_shortcut_active());
    assert!(!FilePicker::new().browse_shortcut(false).browse_shortcut_active());
    assert!(!FilePicker::new().with_enabled(false).browse_shortcut_active());
}

#[test]
fn file_picker_names_and_placeholder() {
    assert_eq!(FilePicker::new().display_name(), None);
    assert_eq!(
        FilePicker::new().with_value("/a/b/report.pdf").display_name(),
        Some("report.pdf".to_string())
    );
    assert_eq!(
        FilePicker::new().placeholder_text(),
        "Click to enter path, or drag & drop"
    );
    assert_eq!(FilePicker::new().placeholder("Pick one").placeholder_text(), "Pick one");
}

#[test]
fn directory_picker_edit_session() {
    let (_d, root, _file, sub) = tree();
    let mut p = DirectoryPicker::new();
    assert_eq!(p.start_editing(), Some(String::new()));
    let e = p.finish_editing("sub", Some(root.as_str()));
    assert_eq!(dir_change(e), Some(sub.clone()));
    p.start_editing();
    p.cancel_editing();
    assert!(p.take_pending_refocus());
    assert_eq!(p.value(), sub);
    assert!(DirectoryPicker::new().with_enabled(false).start_editing().is_none());
}

#[test]
fn directory_picker_drop_folders_and_files() {
    let (_d, root, file_path, sub) = tree();
    let mut p = DirectoryPicker::new();
    assert_eq!(dir_change(p.drop_path(&sub)), Some(sub.clone()));
    assert_eq!(dir_change(p.drop_path(&file_path)), Some(root.clone()));
    assert!(p.drop_path(&file_path).is_none());
    assert!(p.drop_path(&format!("{}/nothing", root)).is_none());
    assert_eq!(p.value(), root);
}

#[test]
fn directory_picker_dialog_walks_up_to_an_existing_folder() {
    let (_d, root, _file, sub) = tree();
    let cwd = Some("/work");
    assert_eq!(DirectoryPicker::new().dialog_start_directory(cwd), Some("/work".to_string()));
    let p = DirectoryPicker::new().with_value(&sub);
    assert_eq!(p.dialog_start_directory(cwd), Some(sub.clone()));
    let p = DirectoryPicker::new().with_value(&format!("{}/a/b/c", sub));
    assert_eq!(p.dialog_start_directory(cwd), Some(sub.clone()));
    let p = DirectoryPicker::new().with_value("relative_missing_dir");
    assert_eq!(p.dialog_start_directory(cwd), Some("/work".to_string()));
    assert_eq!(
        DirectoryPicker::new().with_value(&root).browse_request(None),
        Some(Some(root.clone()))
    );
    assert!(DirectoryPicker::new().with_enabled(false).browse_request(cwd).is_none());
}

#[test]
fn directory_picker_names_and_placeholder() {
    assert_eq!(
        DirectoryPicker::new().with_value("/a/b/out").display_name(),
        Some("out".to_string())
    );
    assert_eq!(
        DirectoryPicker::new().placeholder_text(),
        "Click to enter path, or drag & drop"
    );
    assert!(DirectoryPicker::new().browse_shortcut_active());
}

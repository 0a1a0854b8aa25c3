use ccf_gpui_widgets::utils::path::{
    build_suffix, expand_tilde, expand_tilde_with, find_existing_prefix, parse_path_in,
};
use tempfile::TempDir;

#[test]
fn test_expand_tilde() {
    // Test that ~ expands to something (exact value depends on environment)
    let expanded = expand_tilde("~");
    assert!(!expanded.is_empty());
    assert!(!expanded.starts_with('~') || expanded == "~"); // Either expanded or unchanged

    let with_path = expand_tilde("~/Documents");
    assert!(with_path.ends_with("/Documents") || with_path == "~/Documents");
}

#[test]
fn test_parse_existing_path() {
    let temp = TempDir::new().unwrap();
    let info = parse_path_in(temp.path().to_str().unwrap(), None);
    assert!(info.fully_exists());
    assert_eq!(info.non_existing_suffix, String::new());
}

#[test]
fn test_parse_non_existing_file() {
    let temp = TempDir::new().unwrap();
    let non_existing = temp.path().join("this_file_should_not_exist_12345.txt");
    let info = parse_path_in(non_existing.to_str().unwrap(), None);

    assert!(!info.fully_exists());
    assert_eq!(info.non_existing_suffix, "this_file_should_not_exist_12345.txt".to_string());
}

#[test]
fn test_empty_path() {
    let info = parse_path_in("", None);
    assert!(info.full_path.is_empty());
}

#[test]
fn tilde_expansion_with_a_given_home() {
    assert_eq!(expand_tilde_with("~", Some("/home/u")), "/home/u");
    assert_eq!(expand_tilde_with("~/docs/a.txt", Some("/home/u")), "/home/u/docs/a.txt");
    assert_eq!(expand_tilde_with("~/docs", None), "~/docs");
    assert_eq!(expand_tilde_with("~user/x", Some("/home/u")), "~user/x");
    assert_eq!(expand_tilde_with("/abs/~", Some("/home/u")), "/abs/~");
    assert_eq!(expand_tilde("relative/path"), "relative/path");
}

#[test]
fn relative_paths_resolve_against_the_working_directory() {
    let temp = TempDir::new().unwrap();
    let base = temp.path().to_str().unwrap().to_string();
    let info = parse_path_in("missing/file.txt", Some(&base));
    assert_eq!(info.non_existing_suffix, "missing/file.txt");
    assert!(info.full_path.ends_with("/missing/file.txt"));
    assert!(!info.fully_exists());
}

#[test]
fn existing_prefix_and_suffix() {
    let temp = TempDir::new().unwrap();
    let base = temp.path().to_str().unwrap().to_string();
    let deep = format!("{}/a/b/c.txt", base);
    let (existing, suffix) = find_existing_prefix(&deep);
    assert_eq!(existing, base);
    assert_eq!(suffix, "a/b/c.txt");
    let (existing, suffix) = find_existing_prefix(&base);
    assert_eq!(existing, base);
    assert_eq!(suffix, "");
    assert_eq!(build_suffix(&vec!["c".to_string(), "b".to_string(), "a".to_string()]), "a/b/c");
    assert_eq!(build_suffix(&Vec::new()), "");
}

#[test]
fn plain_relative_input_is_joined_to_the_working_directory() {
    let info = parse_path_in("x_missing_dir/y.txt", Some("/no_such_base_dir"));
    assert_eq!(info.full_path, "/no_such_base_dir/x_missing_dir/y.txt");
    assert!(info.non_existing_suffix.ends_with("x_missing_dir/y.txt"));
}

#[test]
fn missing_components_come_back_in_path_order() {
    let (existing, suffix) = find_existing_prefix("/no_such_top_dir_4821/a/b");
    assert_eq!(existing, "/");
    assert_eq!(suffix, "no_such_top_dir_4821/a/b");
    let temp = TempDir::new().unwrap();
    let base = temp.path().to_str().unwrap().to_string();
    let info = parse_path_in(&format!("{}/nonexistent/a/b", base), None);
    assert_eq!(info.non_existing_suffix, "nonexistent/a/b");
    assert!(info.full_path.ends_with("/nonexistent/a/b"));
}

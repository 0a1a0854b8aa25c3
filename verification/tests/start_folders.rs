use ccf_gpui_widgets::utils::path::split_at_existing;
use ccf_gpui_widgets::widgets::directory_picker::directory_dialog_start_from;
use ccf_gpui_widgets::widgets::file_picker::file_dialog_start_from;

fn strings(v: &[&str]) -> Vec<String> {
    v.iter().map(|s| s.to_string()).collect()
}

#[test]
fn file_dialog_start_follows_the_answers() {
    let cwd = Some("/work");
    assert_eq!(file_dialog_start_from("", false, false, None, false, cwd), Some("/work".to_string()));
    assert_eq!(file_dialog_start_from("", false, false, None, false, None), None);
    assert_eq!(
        file_dialog_start_from("/a/dir", true, true, Some("/a"), true, cwd),
        Some("/a/dir".to_string())
    );
    assert_eq!(
        file_dialog_start_from("/a/f.txt", false, true, Some("/a"), true, cwd),
        Some("/a".to_string())
    );
    assert_eq!(
        file_dialog_start_from("/a/f.txt", false, false, Some("/a"), false, cwd),
        Some("/work".to_string())
    );
    assert_eq!(
        file_dialog_start_from("f.txt", false, false, Some(""), true, cwd),
        Some("/work".to_string())
    );
    assert_eq!(file_dialog_start_from("/", false, true, None, false, cwd), Some("/work".to_string()));
}

#[test]
fn directory_dialog_start_takes_the_first_existing_folder() {
    let cwd = Some("/work");
    let anc = strings(&["/a/b", "/a", "/"]);
    assert_eq!(
        directory_dialog_start_from("", false, &Vec::new(), &Vec::new(), cwd),
        Some("/work".to_string())
    );
    assert_eq!(
        directory_dialog_start_from("/a/b/c", true, &anc, &vec![false, false, false], cwd),
        Some("/a/b/c".to_string())
    );
    assert_eq!(
        directory_dialog_start_from("/a/b/c", false, &anc, &vec![false, true, true], cwd),
        Some("/a".to_string())
    );
    assert_eq!(
        directory_dialog_start_from("/a/b/c", false, &anc, &vec![false, false, false], cwd),
        Some("/work".to_string())
    );
    assert_eq!(
        directory_dialog_start_from("/a/b/c", false, &anc, &vec![false, false, false], None),
        None
    );
}

#[test]
fn split_stops_at_the_first_existing_path() {
    let checked = strings(&["/a/b/c.txt", "/a/b", "/a"]);
    let names = strings(&["c.txt", "b", "a"]);
    assert_eq!(
        split_at_existing(&checked, &names, "/", &vec![true]),
        ("/a/b/c.txt".to_string(), String::new())
    );
    assert_eq!(
        split_at_existing(&checked, &names, "/", &vec![false, false, true]),
        ("/a".to_string(), "b/c.txt".to_string())
    );
    assert_eq!(
        split_at_existing(&checked, &names, "/", &vec![false, true]),
        ("/a/b".to_string(), "c.txt".to_string())
    );
    assert_eq!(
        split_at_existing(&checked, &names, "/", &vec![false, false, false]),
        ("/".to_string(), "a/b/c.txt".to_string())
    );
}

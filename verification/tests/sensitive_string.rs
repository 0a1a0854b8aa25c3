use ccf_gpui_widgets::widgets::editing_core::{ContentStorage, EditingCore};
use ccf_gpui_widgets::widgets::sensitive_string::{SecretText, SensitiveString};
use secrecy::{ExposeSecret, SecretString};

#[test]
fn test_basic_operations() {
    let mut s = SensitiveString::new();
    assert!(s.is_empty());

    s.set("password123");
    assert_eq!(s.as_str(), "password123");
    assert_eq!(s.len(), 11);
}

#[test]
fn test_insert() {
    let mut s = SensitiveString::from_str("hello");
    s.insert_str(5, " world");
    assert_eq!(s.as_str(), "hello world");
}

#[test]
fn test_remove_range() {
    let mut s = SensitiveString::from_str("hello world");
    s.remove_range(5..11);
    assert_eq!(s.as_str(), "hello");
}

#[test]
fn test_replace_range() {
    let mut s = SensitiveString::from_str("hello world");
    s.replace_range(0..5, "hi");
    assert_eq!(s.as_str(), "hi world");
}

#[test]
fn test_clone() {
    let s1 = SensitiveString::from_str("password");
    let s2 = s1.clone();
    assert_eq!(s1.as_str(), s2.as_str());
}

#[test]
fn sensitive_storage_drives_an_editor() {
    let mut core = EditingCore::<SensitiveString>::new().with_masked(true);
    core.insert_text("pässword");
    assert_eq!(core.cursor(), 9);
    assert!(core.delete_word_backward());
    assert_eq!(core.content(), "pässwor");
    core.select_all();
    core.insert_text("x");
    assert_eq!(core.content(), "x");
}

#[test]
fn storage_queries() {
    let s = SensitiveString::from_str("héllo");
    assert_eq!(s.len(), 6);
    assert_eq!(s.chars_count(), 5);
    assert_eq!(s.get(1..3), Some("é"));
    assert_eq!(s.get(1..2), None);
    assert_eq!(s.get(3..1), None);
    let t = String::from("abc");
    assert_eq!(ContentStorage::len(&t), 3);
    assert!(!ContentStorage::is_empty(&t));
}

#[test]
fn test_to_secret_string() {
    let s = SensitiveString::from_str("secret");
    let secret = s.to_secret_string();
    assert_eq!(secret.0.expose_secret(), "secret");
}

#[test]
fn test_from_secret() {
    let secret = SecretText(SecretString::from("password".to_string()));
    let s = SensitiveString::from_secret(&secret);
    assert_eq!(s.as_str(), "password");
}

#[test]
fn secret_round_trip_keeps_text() {
    let s = SensitiveString::from_str("héllo wörld");
    let back = SensitiveString::from_secret(&s.to_secret_string());
    assert_eq!(back.as_str(), "héllo wörld");
}

#[test]
fn secret_clone_holds_the_same_text() {
    let secret = SensitiveString::from_str("pa55").to_secret_string();
    let copy = secret.clone();
    assert_eq!(copy.0.expose_secret(), "pa55");
    assert_eq!(SensitiveString::from_secret(&copy).as_str(), "pa55");
}

#[test]
fn test_debug_redaction() {
    let s = SensitiveString::from_str("secret");
    let debug = s.debug_text();
    assert!(!debug.contains("secret"));
    assert!(debug.contains("REDACTED"));
}

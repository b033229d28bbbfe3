use feed_sync::text::{copy_of, copy_or, starts_with};

#[test]
fn a_text_begins_with_its_prefixes() {
    assert!(starts_with("http://x", "http"));
    assert!(starts_with("http", "http"));
    assert!(starts_with("anything", ""));
    assert!(starts_with("", ""));
    assert!(!starts_with("htt", "http"));
    assert!(!starts_with("", "http"));
    assert!(!starts_with("xhttp", "http"));
    assert!(!starts_with("Http", "http"));
    assert!(starts_with("\u{e9}t\u{e9}", "\u{e9}t"));
    assert!(!starts_with("\u{e9}t\u{e9}", "et"));
}

#[test]
fn an_optional_text_is_copied() {
    assert_eq!(copy_of(&None), None);
    assert_eq!(copy_of(&Some("a".to_string())), Some("a".to_string()));
    assert_eq!(copy_of(&Some(String::new())), Some(String::new()));
}

#[test]
fn a_missing_text_gives_way_to_the_fallback() {
    assert_eq!(copy_or(&None, "fallback"), "fallback");
    assert_eq!(copy_or(&Some("a".to_string()), "fallback"), "a");
    assert_eq!(copy_or(&Some(String::new()), "fallback"), "");
}

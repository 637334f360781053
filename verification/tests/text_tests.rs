use mimi_ime::text::{str_chars, str_eq, str_starts_with};

#[test]
fn string_helpers() {
    assert!(str_eq("việt", "việt"));
    assert!(!str_eq("viet", "việt"));
    assert!(str_starts_with("mimi-ime.log.1", "mimi-ime.log"));
    assert!(!str_starts_with("mimi", "mimi-ime"));
    assert_eq!(str_chars("ơi"), vec!['ơ', 'i']);
}


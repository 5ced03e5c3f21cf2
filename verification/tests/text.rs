use status_bar::text::{
    chars_of, ends_with, join, push_decimal, same_text, starts_with, strip_prefix,
};

#[test]
fn the_characters_of_a_string_come_in_order() {
    assert_eq!(chars_of(""), Vec::<char>::new());
    assert_eq!(chars_of("aü€"), vec!['a', 'ü', '€']);
}

#[test]
fn prefixes_are_recognised() {
    assert!(starts_with("file:///x", "file://"));
    assert!(starts_with("abc", ""));
    assert!(starts_with("", ""));
    assert!(starts_with("abc", "abc"));
    assert!(!starts_with("abc", "abcd"));
    assert!(!starts_with("abc", "b"));
    assert!(!starts_with("", "a"));
    assert!(starts_with("üb", "ü"));
}

#[test]
fn suffixes_are_recognised() {
    assert!(ends_with("/TrackList/NoTrack", "NoTrack"));
    assert!(ends_with("abc", ""));
    assert!(ends_with("abc", "abc"));
    assert!(!ends_with("abc", "zabc"));
    assert!(!ends_with("abc", "b"));
    assert!(!ends_with("NoTrack1", "NoTrack"));
    assert!(ends_with("bü", "ü"));
}

#[test]
fn texts_are_compared_whole() {
    assert!(same_text("", ""));
    assert!(same_text("abc", "abc"));
    assert!(!same_text("abc", "ab"));
    assert!(!same_text("ab", "abc"));
    assert!(!same_text("abc", "abd"));
}

#[test]
fn a_prefix_is_stripped_only_where_it_stands() {
    assert_eq!(strip_prefix("file:///tmp/a", "file://"), Some("/tmp/a".to_string()));
    assert_eq!(strip_prefix("file://", "file://"), Some(String::new()));
    assert_eq!(strip_prefix("http://a", "file://"), None);
    assert_eq!(strip_prefix("üüa", "ü"), Some("üa".to_string()));
    assert_eq!(strip_prefix("abc", ""), Some("abc".to_string()));
}

#[test]
fn parts_are_joined_with_the_separator() {
    let parts = |list: &[&str]| list.iter().map(|s| s.to_string()).collect::<Vec<_>>();
    assert_eq!(join(&parts(&[]), ", "), "");
    assert_eq!(join(&parts(&["a"]), ", "), "a");
    assert_eq!(join(&parts(&["a", "b", "c"]), ", "), "a, b, c");
    assert_eq!(join(&parts(&["", ""]), "-"), "-");
    assert_eq!(join(&parts(&["a", "b"]), ""), "ab");
}

#[test]
fn a_numeral_is_appended() {
    let mut out = "n=".to_string();
    push_decimal(&mut out, 1203);
    push_decimal(&mut out, 0);
    assert_eq!(out, "n=12030");
}

use chat_context::bytes::{find_byte, starts_with};
use chat_context::screenshot::{strip_data_uri, COMMA};

fn strip(s: &str) -> String {
    strip_data_uri(s.to_string())
}

#[test]
fn png_data_uri_is_stripped() {
    assert_eq!(strip("data:image/png;base64,AAAA"), "AAAA");
}

#[test]
fn jpeg_data_uri_is_stripped() {
    assert_eq!(strip("data:image/jpeg;base64,/9j/4AAQSkZJRg=="), "/9j/4AAQSkZJRg==");
}

#[test]
fn plain_base64_is_unchanged() {
    assert_eq!(strip("AAAA"), "AAAA");
}

#[test]
fn plain_string_with_comma_is_unchanged() {
    assert_eq!(strip("left,right"), "left,right");
}

#[test]
fn other_data_uri_is_unchanged() {
    assert_eq!(strip("data:text/plain;base64,AAAA"), "data:text/plain;base64,AAAA");
}

#[test]
fn marker_must_open_the_string() {
    assert_eq!(strip(" data:image/png;base64,AAAA"), " data:image/png;base64,AAAA");
    assert_eq!(strip("Data:image/png;base64,AAAA"), "Data:image/png;base64,AAAA");
}

#[test]
fn data_uri_without_comma_is_unchanged() {
    assert_eq!(strip("data:image/png;base64"), "data:image/png;base64");
    assert_eq!(strip("data:image/"), "data:image/");
}

#[test]
fn data_uri_with_empty_payload() {
    assert_eq!(strip("data:image/png;base64,"), "");
}

#[test]
fn everything_after_the_first_comma_is_kept() {
    assert_eq!(strip("data:image/png;base64,AAAA,BBBB"), "AAAA,BBBB");
}

#[test]
fn empty_string_is_unchanged() {
    assert_eq!(strip(""), "");
}

#[test]
fn wide_characters_around_the_comma() {
    assert_eq!(strip("data:image/émoji;ü,日本語"), "日本語");
    assert_eq!(strip("data:image/日本語"), "data:image/日本語");
}

#[test]
fn starts_with_compares_prefixes() {
    assert!(starts_with(b"data:image/png", b"data:image/"));
    assert!(starts_with(b"abc", b""));
    assert!(starts_with(b"abc", b"abc"));
    assert!(!starts_with(b"ab", b"abc"));
    assert!(!starts_with(b"abd", b"abc"));
    assert!(!starts_with(b"", b"a"));
}

#[test]
fn find_byte_returns_the_first_position() {
    assert_eq!(COMMA, b',');
    assert_eq!(find_byte(b"a,b,c", COMMA), Some(1));
    assert_eq!(find_byte(b",", COMMA), Some(0));
    assert_eq!(find_byte(b"abc", COMMA), None);
    assert_eq!(find_byte(b"", COMMA), None);
}

use runbot_desktop::text::{contains, decimal_string};

#[test]
fn decimal_string_renders_like_display() {
    assert_eq!(decimal_string(0), "0");
    assert_eq!(decimal_string(42), "42");
    assert_eq!(decimal_string(-7), "-7");
    assert_eq!(decimal_string(i64::MAX), i64::MAX.to_string());
    assert_eq!(decimal_string(i64::MIN), i64::MIN.to_string());
}

#[test]
fn contains_finds_substrings() {
    assert!(contains("failed: HTTP 404 Not Found", "HTTP 404"));
    assert!(!contains("failed: HTTP 500", "HTTP 404"));
    assert!(contains("abc", ""));
    assert!(!contains("", "a"));
}

use dcm_zed::text::{join, same_text, starts_with};
use dcm_zed::{is_blank, trim};

#[test]
fn trim_removes_unicode_whitespace_both_ends() {
    assert_eq!(trim("  a b \t\n"), "a b");
    assert_eq!(trim("\u{3000}x\u{a0}"), "x");
    assert_eq!(trim("   "), "");
    assert_eq!(trim(""), "");
}

#[test]
fn blank_means_only_whitespace() {
    assert!(is_blank(""));
    assert!(is_blank(" \t\r\n"));
    assert!(!is_blank(" x "));
}

#[test]
fn prefix_and_equality() {
    assert!(starts_with("toggle", "tog"));
    assert!(starts_with("toggle", ""));
    assert!(!starts_with("tog", "toggle"));
    assert!(same_text("a", "a"));
    assert!(!same_text("a", "b"));
}

#[test]
fn join_separates_pieces() {
    let parts = vec!["a".to_string(), "b".to_string(), "c".to_string()];
    assert_eq!(join(&parts, " "), "a b c");
    assert_eq!(join(&parts[..1], ","), "a");
    assert_eq!(join(&[], ","), "");
}

use rust_shop::path_matcher::AntPathStringMatcher;
use rust_shop::text::{ends_with, int_to_string, join_strings, remove_all, starts_with, str_eq};

#[test]
fn decimal_text() {
    assert_eq!(int_to_string(0), "0");
    assert_eq!(int_to_string(i64::MIN), i64::MIN.to_string());
    assert_eq!(int_to_string(i64::MAX), i64::MAX.to_string());
    assert_eq!(int_to_string(-7), "-7");
}

#[test]
fn joining() {
    assert_eq!(join_strings(&vec![], ", "), "");
    assert_eq!(join_strings(&vec!["a".to_string()], ", "), "a");
    assert_eq!(join_strings(&vec!["a".to_string(), "b".to_string(), "c".to_string()], ", "), "a, b, c");
}

#[test]
fn removing_occurrences() {
    assert_eq!(remove_all("Option < u32 >", " "), "Option<u32>");
    assert_eq!(remove_all("a.rsb.rs", ".rs"), "ab");
    assert_eq!(remove_all("aaa", "aa"), "a");
    assert_eq!(remove_all("abc", ""), "abc");
}

#[test]
fn prefix_suffix_and_equality() {
    assert!(starts_with("Option<i32>", "Option<"));
    assert!(!starts_with("Opt", "Option<"));
    assert!(ends_with("x_controller.rs", "_controller.rs"));
    assert!(!ends_with("rs", "_controller.rs"));
    assert!(str_eq("登录", "登录"));
    assert!(!str_eq("a", "b"));
}

#[test]
fn substrings_count_characters() {
    let m = AntPathStringMatcher::new("/x".to_string(), true);
    assert_eq!(m.quote("héllo".to_string(), 1, 3), "\\Qél\\E");
    assert_eq!(m.quote("abc".to_string(), 2, 10), "\\Qc\\E");
}

use rust_shop::path_matcher::{AntPathStringMatcher, PathSeparatorPatternCache, DEFAULT_PATH_SEPARATOR};

#[test]
fn separator_cache_builds_wildcard_suffixes() {
    let cache = PathSeparatorPatternCache::new(DEFAULT_PATH_SEPARATOR.to_string());
    assert_eq!(cache.get_ends_on_wild_card(), "/*");
    assert_eq!(cache.get_ends_on_double_wild_card(), "/**");
}

#[test]
fn plain_pattern_is_exact_match() {
    let m = AntPathStringMatcher::new("/login".to_string(), true);
    assert!(m.is_exact_match());
    assert!(m.pattern().is_none());
    assert!(m.variable_names().is_empty());
    assert_eq!(m.raw_pattern(), "/login");
    assert!(m.is_case_sensitive());
}

#[test]
fn star_pattern_compiles_to_dot_star() {
    let m = AntPathStringMatcher::new("*.html".to_string(), false);
    assert!(!m.is_exact_match());
    assert_eq!(m.pattern().unwrap(), ".*\\Q.html\\E");
    assert!(!m.is_case_sensitive());
}

#[test]
fn question_mark_compiles_to_dot() {
    let m = AntPathStringMatcher::new("file?.txt".to_string(), true);
    assert_eq!(m.pattern().unwrap(), "\\Qfile\\E.\\Q.txt\\E");
}

#[test]
fn variable_gets_default_pattern_and_name() {
    let m = AntPathStringMatcher::new("/users/{id}".to_string(), true);
    assert_eq!(m.pattern().unwrap(), "\\Q/users/\\E((?s).*)");
    assert_eq!(m.variable_names(), &vec!["id".to_string()]);
}

#[test]
fn variable_with_own_regex_keeps_nested_braces() {
    let m = AntPathStringMatcher::new("/a/{id:\\d{3}}/b".to_string(), true);
    assert_eq!(m.pattern().unwrap(), "\\Q/a/\\E(\\d{3})\\Q/b\\E");
    assert_eq!(m.variable_names(), &vec!["id".to_string()]);
}

#[test]
fn empty_braces_are_literal_text() {
    let m = AntPathStringMatcher::new("/a{}".to_string(), true);
    assert!(m.is_exact_match());
}

#[test]
fn quote_the_str_wraps_plain_text() {
    let m = AntPathStringMatcher::new("/x".to_string(), true);
    assert_eq!(m.quote_the_str("a.b".to_string()), "\\Qa.b\\E");
}

#[test]
fn quote_the_str_escapes_inner_end_marker() {
    let m = AntPathStringMatcher::new("/x".to_string(), true);
    assert_eq!(m.quote_the_str("a\\Eb".to_string()), "\\Qa\\E\\\\E\\Qb\\E");
}

#[test]
fn quote_range_of_string() {
    let m = AntPathStringMatcher::new("/x".to_string(), true);
    assert_eq!(m.quote("hello".to_string(), 1, 3), "\\Qel\\E");
    assert_eq!(m.quote("hello".to_string(), 2, 2), "");
}

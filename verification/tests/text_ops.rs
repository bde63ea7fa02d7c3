use canvas_ai::text::{
    concat3, contains_str, ends_with, owned, push_i64, split_once_char, starts_with, str_eq, trim,
    trim_end_matches_char, trim_start_matches,
};

#[test]
fn trim_removes_unicode_white_space() {
    assert_eq!(trim("  \t hello world \n"), "hello world");
    assert_eq!(trim("\u{3000}全角\u{00a0}"), "全角");
    assert_eq!(trim("   "), "");
    assert_eq!(trim(""), "");
}

#[test]
fn trim_start_matches_removes_every_leading_copy() {
    assert_eq!(trim_start_matches("file://file://x", "file://"), "x");
    assert_eq!(trim_start_matches("xfile://", "file://"), "xfile://");
    assert_eq!(trim_start_matches("abc", ""), "abc");
    assert_eq!(trim_start_matches("", ""), "");
}

#[test]
fn trim_end_matches_char_removes_trailing_slashes() {
    assert_eq!(trim_end_matches_char("https://a.b/api///", '/'), "https://a.b/api");
    assert_eq!(trim_end_matches_char("///", '/'), "");
}

#[test]
fn split_once_char_splits_at_first_occurrence() {
    assert_eq!(
        split_once_char("grsai/gpt-image-2/x", '/'),
        Some(("grsai".to_string(), "gpt-image-2/x".to_string()))
    );
    assert_eq!(split_once_char("plain", '/'), None);
    assert_eq!(split_once_char("/lead", '/'), Some(("".to_string(), "lead".to_string())));
}

#[test]
fn prefix_suffix_and_substring_tests() {
    assert!(starts_with("https://x", "https://"));
    assert!(!starts_with("http", "https://"));
    assert!(ends_with("data:image/png;base64", ";base64"));
    assert!(!ends_with("base64", ";base64"));
    assert!(contains_str("https://ark.cn/api/v3", "/api/v3"));
    assert!(!contains_str("https://ark.cn/api/coding", "/api/v3"));
    assert!(contains_str("abc", ""));
}

#[test]
fn string_equality_and_building() {
    assert!(str_eq("中文", "中文"));
    assert!(!str_eq("a", "ab"));
    assert_eq!(concat3("a", "中", "c"), "a中c");
    assert_eq!(owned("xyz"), "xyz");
}

#[test]
fn push_i64_writes_display_form() {
    for v in [0i64, 7, 10, -1, 123456789, i64::MAX, i64::MIN] {
        let mut s = String::from(">");
        push_i64(&mut s, v);
        assert_eq!(s, format!(">{}", v));
    }
}

use messaging_app_backend::text::{contains, is_blank, join, split_char, starts_with, str_eq, strip_prefix, suffix_from};

#[test]
fn blank_is_trim_empty() {
    for t in ["", "   ", "\t\n", "\u{3000}", " a ", "x"] {
        assert_eq!(is_blank(t), t.trim().is_empty(), "{t:?}");
    }
}

#[test]
fn searching_and_slicing() {
    assert!(contains("Mozilla Chrome", "Chrome"));
    assert!(!contains("Firefox", "Chrome"));
    assert!(starts_with("Bearer abc", "Bearer "));
    assert!(!starts_with("bearer abc", "Bearer "));
    assert_eq!(suffix_from("Bearer abc", 7), "abc");
    assert_eq!(strip_prefix("Bearer abc", "Bearer "), Some("abc".to_string()));
    assert_eq!(strip_prefix("Basic abc", "Bearer "), None);
    assert!(str_eq("a", "a"));
    assert!(!str_eq("a", "ab"));
}

#[test]
fn split_matches_std_split() {
    for t in ["", "a", "a&b", "&&", "token=x&y=2", "&a&"] {
        let ours = split_char(t, '&');
        let std: Vec<String> = t.split('&').map(|p| p.to_string()).collect();
        assert_eq!(ours, std, "{t:?}");
    }
}

#[test]
fn join_with_separator() {
    let parts = vec!["a".to_string(), "b".to_string(), "c".to_string()];
    assert_eq!(join(&parts, ", "), "a, b, c");
    assert_eq!(join(&Vec::new(), ", "), "");
}

use symbol_lookup::{contains, is_whitespace, same_text, split_on, trim};

#[test]
fn trim_unicode_whitespace() {
    assert_eq!(trim("\u{3000} abc\u{a0}\t"), "abc");
    assert_eq!(trim("   "), "");
    assert_eq!(trim("a b"), "a b");
}

#[test]
fn whitespace_matches_std() {
    for c in ['\t', '\n', '\r', ' ', '\u{85}', '\u{a0}', '\u{2009}', '\u{3000}', 'a', '\u{200b}', '_'] {
        assert_eq!(is_whitespace(c), c.is_whitespace());
    }
}

#[test]
fn split_on_matches_std() {
    for s in ["a::b::c", "a:::b", "::", "", "abc", "x::", "::y", "a::::b"] {
        let ours = split_on(s, "::");
        let std: Vec<&str> = s.split("::").collect();
        assert_eq!(ours, std);
    }
}

#[test]
fn contains_and_same_text() {
    assert!(contains("core::iter::Iterator", "iter"));
    assert!(contains("abc", ""));
    assert!(!contains("ab", "abc"));
    assert!(!contains("core::ops", "iter"));
    assert!(same_text("Vec", "Vec"));
    assert!(!same_text("Vec", "Ve"));
}

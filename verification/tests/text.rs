use exalta::text::{chars_of, contains_str, replace_str, starts_with_str, str_eq, string_from_chars};

#[test]
fn replace_matches_std() {
    let cases = [
        ("<Error>bad</Error>", "<Error>", ""),
        ("aaaa", "aa", "b"),
        ("ab", "", "X"),
        ("", "", "X"),
        ("steamworks:123", "steamworks:", ""),
        ("héllo wörld", "ö", "oe"),
        ("abc", "abcd", "z"),
    ];
    for (s, from, to) in cases {
        assert_eq!(replace_str(s, from, to), s.replace(from, to), "{s:?} {from:?} {to:?}");
    }
}

#[test]
fn prefix_infix_equality() {
    assert!(starts_with_str("<error>x", "<error>"));
    assert!(!starts_with_str("<err", "<error>"));
    assert!(contains_str("abc", ""));
    assert!(contains_str("xxsuccess", "success"));
    assert!(!contains_str("", "a"));
    assert!(str_eq("é", "é"));
    assert!(!str_eq("a", "ab"));
    assert_eq!(string_from_chars(&chars_of("grüße")), "grüße");
}

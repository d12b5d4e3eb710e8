use webserver::text::{is_whitespace, str_contains, str_eq, str_starts_with, trim};

#[test]
fn trim_matches_std() {
    for s in ["", "  ", " a ", "\u{a0}x\u{3000}", "\n\tmiddle space\r\n", "\u{85}a b\u{2028}", "x"] {
        assert_eq!(trim(s), s.trim());
    }
}

#[test]
fn whitespace_matches_std() {
    for c in ['\t', '\n', '\u{b}', '\u{c}', '\r', ' ', '\u{85}', '\u{a0}', '\u{1680}', '\u{2000}', '\u{200a}', '\u{200b}', '\u{2028}', '\u{2029}', '\u{202f}', '\u{205f}', '\u{3000}', 'a', '\u{feff}', '\u{180e}'] {
        assert_eq!(is_whitespace(c), c.is_whitespace(), "{:?}", c);
    }
}

#[test]
fn comparisons() {
    assert!(str_eq("abc", "abc"));
    assert!(!str_eq("abc", "abd"));
    assert!(!str_eq("ab", "abc"));
    assert!(str_starts_with("!ticket x", "!ticket"));
    assert!(!str_starts_with("!tick", "!ticket"));
    assert!(str_contains("say !ticket", "!ticket"));
    assert!(!str_contains("say !tickt", "!ticket"));
    assert!(str_contains("abc", ""));
}

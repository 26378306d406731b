use danji::text::{
    contains_str, find_char, is_whitespace, push_decimal, split_once_at, str_eq, trim,
};

#[test]
fn whitespace_is_unicode_whitespace() {
    for c in ['\t', '\n', '\u{b}', '\u{c}', '\r', ' ', '\u{85}', '\u{a0}', '\u{1680}', '\u{2000}',
        '\u{200a}', '\u{2028}', '\u{2029}', '\u{202f}', '\u{205f}', '\u{3000}'] {
        assert!(is_whitespace(c), "{:?}", c);
        assert!(c.is_whitespace());
    }
    for c in ['a', '0', '\u{200b}', '\u{feff}', '\u{1f}', '='] {
        assert!(!is_whitespace(c), "{:?}", c);
        assert_eq!(c.is_whitespace(), is_whitespace(c));
    }
}

#[test]
fn trim_matches_std() {
    for s in ["", "   ", " a ", "bypass on\n", "\u{3000}x y\u{a0}", "abc", "\t\r\n"] {
        assert_eq!(trim(s), s.trim());
    }
}

#[test]
fn split_once_matches_splitn() {
    for s in ["bypass on", "bypass", "a b c", " x", "x ", ""] {
        let (a, b) = split_once_at(s, ' ');
        let mut it = s.splitn(2, ' ');
        assert_eq!(a, it.next().unwrap());
        assert_eq!(b, it.next().unwrap_or(""));
    }
    assert_eq!(split_once_at("k=v=w", '='), ("k", "v=w"));
}

#[test]
fn find_and_compare() {
    assert_eq!(find_char("hello", 'l'), 2);
    assert_eq!(find_char("hello", 'z'), 5);
    assert_eq!(find_char("\u{591a}x", 'x'), 1);
    assert!(str_eq("abc", "abc"));
    assert!(!str_eq("abc", "abd"));
    assert!(!str_eq("abc", "ab"));
}

#[test]
fn substring_search() {
    assert!(contains_str("BlackHole 2ch", "BlackHole"));
    assert!(contains_str("abc", ""));
    assert!(contains_str("abc", "abc"));
    assert!(!contains_str("ab", "abc"));
    assert!(!contains_str("Black Hole", "BlackHole"));
    assert!(contains_str("MacBook Pro\u{626c}\u{58f0}\u{5668}", "\u{626c}\u{58f0}\u{5668}"));
}

#[test]
fn decimal_formatting() {
    for n in [0usize, 7, 10, 99, 100, 12345, usize::MAX] {
        let mut s = String::from("n=");
        push_decimal(&mut s, n);
        assert_eq!(s, format!("n={}", n));
    }
}

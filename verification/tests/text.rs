use dirustic::text::{chars_of, contains_str, push_decimal, split_chars, starts_with_str};

#[test]
fn decimal_rendering() {
    for n in [0u64, 7, 10, 99, 100, 1234567890, u64::MAX] {
        let mut s = String::from("x");
        push_decimal(&mut s, n);
        assert_eq!(s, format!("x{n}"));
    }
}

#[test]
fn splitting_matches_str_split() {
    for (s, sep) in [("a b  c", ' '), ("", ' '), (" ", ' '), ("abc", '\n'), ("a\nb\n", '\n')] {
        let expected: Vec<String> = s.split(sep).map(|p| p.to_string()).collect();
        assert_eq!(split_chars(s, sep), expected);
    }
}

#[test]
fn infix_and_prefix() {
    assert!(contains_str("hello world", "o w"));
    assert!(contains_str("abc", ""));
    assert!(!contains_str("abc", "abcd"));
    assert!(starts_with_str("https://x", "http"));
    assert!(!starts_with_str("htt", "http"));
    assert_eq!(chars_of("héllo"), vec!['h', 'é', 'l', 'l', 'o']);
}

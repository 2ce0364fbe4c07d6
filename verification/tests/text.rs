use slack_zc::text::{
    chars_of, join2, join3, contains_chars, contains_str, decimal_string, find_from,
    find_word, is_space_char, occurs_at, parse_i64_chars, parse_u64_chars, same_text,
    slice_chars, split_words, starts_with_str, string_of, string_of_range, truncate_u32,
};

fn chars(s: &str) -> Vec<char> {
    s.chars().collect()
}

#[test]
fn chars_and_strings_convert_both_ways() {
    assert_eq!(chars_of("héllo"), vec!['h', 'é', 'l', 'l', 'o']);
    assert_eq!(string_of(&chars("héllo")), "héllo");
    assert_eq!(string_of_range(&chars("abcdef"), 2, 4), "cd");
    assert_eq!(slice_chars(&chars("abcdef"), 0, 0), Vec::<char>::new());
    assert_eq!(chars_of(""), Vec::<char>::new());
}

#[test]
fn find_from_gives_the_first_match() {
    let s = chars("abcabc");
    assert_eq!(find_from(&s, &chars("bc"), 0), Some(1));
    assert_eq!(find_from(&s, &chars("bc"), 2), Some(4));
    assert_eq!(find_from(&s, &chars("bc"), 5), None);
    assert_eq!(find_from(&s, &chars(""), 6), Some(6));
    assert_eq!(find_from(&s, &chars(""), 7), None);
    assert_eq!(find_from(&s, &chars("abcabcd"), 0), None);
    assert!(occurs_at(&s, &chars("abc"), 3));
    assert!(!occurs_at(&s, &chars("abc"), 4));
    assert!(!occurs_at(&s, &chars("abc"), usize::MAX));
}

#[test]
fn contains_and_starts_with() {
    let s = chars("error: rate_limited");
    assert!(contains_str(&s, "rate_limited"));
    assert!(contains_str(&s, ""));
    assert!(!contains_str(&s, "rate_limiter"));
    assert!(contains_chars(&s, &chars("error")));
    assert!(starts_with_str(&s, "error"));
    assert!(!starts_with_str(&s, "rror"));
    assert!(same_text("abc", "abc"));
    assert!(!same_text("abc", "abd"));
    assert!(!same_text("abc", "ab"));
}

#[test]
fn whitespace_is_the_unicode_property() {
    for c in [' ', '\t', '\n', '\r', '\u{0B}', '\u{0C}', '\u{85}', '\u{A0}', '\u{1680}',
        '\u{2000}', '\u{200A}', '\u{2028}', '\u{2029}', '\u{202F}', '\u{205F}', '\u{3000}']
    {
        assert!(is_space_char(c));
        assert!(c.is_whitespace());
    }
    for c in ['a', '0', '\u{200B}', '\u{FEFF}', '\u{180E}', '_'] {
        assert!(!is_space_char(c));
        assert!(!c.is_whitespace());
    }
}

#[test]
fn whitespace_agrees_with_std_on_every_character() {
    for n in 0..=0x10FFFFu32 {
        if let Some(c) = char::from_u32(n) {
            assert_eq!(is_space_char(c), c.is_whitespace(), "U+{:04X}", n);
        }
    }
}

#[test]
fn split_words_agrees_with_split_whitespace() {
    for text in ["", "   ", "one", "  one  two\tthree\n", "a\u{3000}b", " x "] {
        let expected: Vec<String> = text.split_whitespace().map(String::from).collect();
        assert_eq!(split_words(&chars(text)), expected, "{:?}", text);
    }
    assert_eq!(find_word(&chars("  ab cd"), 0), Some(chars("ab")));
    assert_eq!(find_word(&chars("  ab cd"), 4), Some(chars("cd")));
    assert_eq!(find_word(&chars("  ab cd  "), 7), None);
}

#[test]
fn parse_u64_agrees_with_std() {
    for text in ["0", "007", "+5", "18446744073709551615", "18446744073709551616", "", "+",
        "-1", "1 ", " 1", "1_000", "٣", "12a", "99999999999999999999999"]
    {
        assert_eq!(parse_u64_chars(&chars(text)), text.parse::<u64>().ok(), "{:?}", text);
    }
}

#[test]
fn parse_i64_agrees_with_std() {
    for text in ["0", "-0", "+0", "42", "-42", "9223372036854775807", "9223372036854775808",
        "-9223372036854775808", "-9223372036854775809", "", "-", "+", "--1", "+-1", "1.5",
        "18446744073709551616", "-18446744073709551616"]
    {
        assert_eq!(parse_i64_chars(&chars(text)), text.parse::<i64>().ok(), "{:?}", text);
    }
}

#[test]
fn decimal_string_agrees_with_to_string() {
    for n in [0u64, 1, 9, 10, 11, 99, 100, 12345, 30_000, u32::MAX as u64, u64::MAX] {
        assert_eq!(decimal_string(n), n.to_string());
        assert_eq!(parse_u64_chars(&chars(&decimal_string(n))), Some(n));
    }
}

#[test]
fn concat_and_truncate() {
    assert_eq!(join2("ab", "cd"), "abcd");
    assert_eq!(join3("a", "", "c"), "ac");
    assert_eq!(truncate_u32(5), 5);
    assert_eq!(truncate_u32(0x1_0000_0005), 5);
    assert_eq!(truncate_u32(u64::MAX), u32::MAX);
}

use uma_fps_unlocker::text::{
    ascii_lower_chars, chars_equal, chars_of, i32_to_text, parse_i32_chars, parse_u64_chars,
    trim_chars,
};

fn chars(s: &str) -> Vec<char> {
    s.chars().collect()
}

#[test]
fn trim_removes_unicode_white_space_on_both_ends() {
    assert_eq!(trim_chars(&chars("  \t42 \n")), chars("42"));
    assert_eq!(trim_chars(&chars("\u{3000}a b\u{a0}")), chars("a b"));
    assert_eq!(trim_chars(&chars("   ")), chars(""));
    assert_eq!(trim_chars(&chars("")), chars(""));
    assert_eq!(trim_chars(&chars("x")), chars("x"));
}

#[test]
fn ascii_lower_leaves_other_characters() {
    assert_eq!(ascii_lower_chars(&chars("EnAbLeD")), chars("enabled"));
    assert_eq!(ascii_lower_chars(&chars("ÄB1")), chars("Äb1"));
}

#[test]
fn parse_i32_follows_std() {
    for s in ["42", "+7", "-0", "0042", "-2147483648", "2147483647", "", "-", "+", "2147483648",
        "-2147483649", " 1", "1 ", "1a", "٣", "--1", "+-1", "99999999999999999999999"]
    {
        assert_eq!(parse_i32_chars(&chars(s)), s.parse::<i32>().ok(), "input {:?}", s);
    }
    assert_eq!(parse_i32_chars(&chars("-2147483648")), Some(i32::MIN));
    assert_eq!(parse_i32_chars(&chars("0000000000000000000000000017")), Some(17));
}

#[test]
fn parse_u64_follows_std() {
    for s in ["0", "+5", "-5", "", "+", "18446744073709551615", "18446744073709551616", "60",
        "1e3"]
    {
        assert_eq!(parse_u64_chars(&chars(s)), s.parse::<u64>().ok(), "input {:?}", s);
    }
}

#[test]
fn i32_text_matches_format() {
    for n in [0, 7, 10, 120, 144, -1, -120, i32::MAX, i32::MIN, 1000000] {
        assert_eq!(i32_to_text(n), format!("{}", n));
    }
}

#[test]
fn chars_of_and_equal() {
    assert_eq!(chars_of("añb"), vec!['a', 'ñ', 'b']);
    assert!(chars_equal(&chars("--fps"), "--fps"));
    assert!(!chars_equal(&chars("--fp"), "--fps"));
    assert!(!chars_equal(&chars("--fpz"), "--fps"));
}

use receipt_tui::text::{
    i64_to_string, is_blank, join, parse_i64, push_decimal, remove_char, remove_whitespace,
    split_at_char, str_eq, two_digits,
};

#[test]
fn texts_compare_by_their_characters() {
    assert!(str_eq("", ""));
    assert!(str_eq("abc", "abc"));
    assert!(!str_eq("abc", "abd"));
    assert!(!str_eq("abc", "ab"));
    assert!(str_eq("立替", "立替"));
}

#[test]
fn remove_char_takes_out_every_occurrence() {
    assert_eq!(remove_char("Yamada  Taro ", ' '), "YamadaTaro");
    assert_eq!(remove_char("2025-12", '-'), "202512");
    assert_eq!(remove_char("---", '-'), "");
    assert_eq!(remove_char("", '-'), "");
    assert_eq!(remove_char("山田 太郎", ' '), "山田太郎");
    // Only the character itself goes, not its look-alikes.
    assert_eq!(remove_char("a\u{3000}b", ' '), "a\u{3000}b");
}

fn decimal_of(n: u64) -> String {
    let mut out = String::new();
    push_decimal(&mut out, n);
    out
}

#[test]
fn numbers_are_written_in_decimal() {
    assert_eq!(decimal_of(0), "0");
    assert_eq!(decimal_of(7), "7");
    assert_eq!(decimal_of(10), "10");
    assert_eq!(decimal_of(44), "44");
    assert_eq!(decimal_of(1230), "1230");
    assert_eq!(decimal_of(u64::MAX), "18446744073709551615");
    let mut out = String::from("B");
    push_decimal(&mut out, 105);
    assert_eq!(out, "B105");
}

#[test]
fn signed_numbers_carry_their_sign() {
    assert_eq!(i64_to_string(0), "0");
    assert_eq!(i64_to_string(1200), "1200");
    assert_eq!(i64_to_string(-1), "-1");
    assert_eq!(i64_to_string(-980), "-980");
    assert_eq!(i64_to_string(i64::MAX), "9223372036854775807");
    assert_eq!(i64_to_string(i64::MIN), "-9223372036854775808");
    for n in [-1000i64, -99, -10, -9, 5, 99, 100, 123456789] {
        assert_eq!(i64_to_string(n), n.to_string());
    }
}

#[test]
fn two_digits_fills_with_a_zero() {
    assert_eq!(two_digits(0), "00");
    assert_eq!(two_digits(1), "01");
    assert_eq!(two_digits(9), "09");
    assert_eq!(two_digits(10), "10");
    assert_eq!(two_digits(12), "12");
    assert_eq!(two_digits(123), "123");
}

#[test]
fn join_puts_the_separator_between_neighbours() {
    let none: Vec<String> = vec![];
    assert_eq!(join(&none, "/"), "");
    assert_eq!(join(&[String::from("a")], "/"), "a");
    assert_eq!(join(&[String::from("Up"), String::from("k")], "/"), "Up/k");
    assert_eq!(
        join(&[String::from("a"), String::new(), String::from("c")], ", "),
        "a, , c"
    );
    assert_eq!(join(&[String::new(), String::new()], "-"), "-");
}

#[test]
fn split_cuts_at_every_separator() {
    assert_eq!(split_at_char("", '+'), vec![""]);
    assert_eq!(split_at_char("a", '+'), vec!["a"]);
    assert_eq!(split_at_char("Ctrl+u", '+'), vec!["Ctrl", "u"]);
    assert_eq!(split_at_char("Ctrl+Shift+u", '+'), vec!["Ctrl", "Shift", "u"]);
    assert_eq!(split_at_char("+", '+'), vec!["", ""]);
    assert_eq!(split_at_char("a+", '+'), vec!["a", ""]);
    assert_eq!(split_at_char("+a", '+'), vec!["", "a"]);
    assert_eq!(split_at_char("a++b", '+'), vec!["a", "", "b"]);
    for s in ["", "x", "+", "++", "a+b", "a+b+", "+a+b", "é+ü", "a b+c"] {
        let expected: Vec<String> = s.split('+').map(String::from).collect();
        assert_eq!(split_at_char(s, '+'), expected, "{s:?}");
    }
}

#[test]
fn split_and_join_undo_each_other() {
    for s in ["", "a", "a+b", "+a++b+", "Ctrl+Shift+u"] {
        assert_eq!(join(&split_at_char(s, '+'), "+"), s);
    }
}

#[test]
fn parse_reads_whole_numbers_with_optional_sign() {
    assert_eq!(parse_i64("0"), Some(0));
    assert_eq!(parse_i64("1200"), Some(1200));
    assert_eq!(parse_i64("+15"), Some(15));
    assert_eq!(parse_i64("-15"), Some(-15));
    assert_eq!(parse_i64("-0"), Some(0));
    assert_eq!(parse_i64("007"), Some(7));
    assert_eq!(parse_i64("9223372036854775807"), Some(i64::MAX));
    assert_eq!(parse_i64("-9223372036854775808"), Some(i64::MIN));
    assert_eq!(parse_i64("+9223372036854775807"), Some(i64::MAX));
}

#[test]
fn parse_refuses_what_is_no_number_or_does_not_fit() {
    assert_eq!(parse_i64(""), None);
    assert_eq!(parse_i64("-"), None);
    assert_eq!(parse_i64("+"), None);
    assert_eq!(parse_i64("12a"), None);
    assert_eq!(parse_i64("a12"), None);
    assert_eq!(parse_i64(" 12"), None);
    assert_eq!(parse_i64("12 "), None);
    assert_eq!(parse_i64("1,200"), None);
    assert_eq!(parse_i64("1.5"), None);
    assert_eq!(parse_i64("--1"), None);
    assert_eq!(parse_i64("+-1"), None);
    assert_eq!(parse_i64("１２"), None);
    assert_eq!(parse_i64("9223372036854775808"), None);
    assert_eq!(parse_i64("-9223372036854775809"), None);
    assert_eq!(parse_i64("99999999999999999999999999"), None);
    assert_eq!(parse_i64("99999999999999999999999999x"), None);
}

#[test]
fn parse_agrees_with_the_standard_parser() {
    let samples = [
        "", "0", "-0", "+0", "1", "-1", "+1", "10", "0010", "123456789", "-123456789",
        "9223372036854775806", "9223372036854775807", "9223372036854775808",
        "-9223372036854775807", "-9223372036854775808", "-9223372036854775809",
        "18446744073709551616", "1e3", "0x10", "1_000", " 1", "1 ", "-", "+", "++1", "٣",
        "12\n", "−5",
    ];
    for s in samples {
        assert_eq!(parse_i64(s), s.parse::<i64>().ok(), "{s:?}");
    }
}

#[test]
fn blank_means_white_space_only() {
    assert!(is_blank(""));
    assert!(is_blank(" "));
    assert!(is_blank(" \t\r\n"));
    assert!(is_blank("\u{3000}"));
    assert!(is_blank("\u{a0}\u{2003}"));
    assert!(!is_blank("a"));
    assert!(!is_blank("  a  "));
    assert!(!is_blank("0"));
    assert!(!is_blank("\u{200b}"));
    for s in ["", " ", "x", " x", "\t", "\u{85}", "\u{feff}", "  \u{1680} "] {
        assert_eq!(is_blank(s), s.trim().is_empty(), "{s:?}");
    }
}

#[test]
fn remove_whitespace_keeps_everything_else() {
    assert_eq!(remove_whitespace(""), "");
    assert_eq!(remove_whitespace("abc"), "abc");
    assert_eq!(remove_whitespace(" a b\tc\r\n"), "abc");
    assert_eq!(remove_whitespace("\u{3000}山\u{2003}田\u{85}"), "山田");
    for s in ["", " ", "a b", "\t\ta", "x\u{a0}y", "no-gaps_here", "\u{feff}x"] {
        let expected: String = s.chars().filter(|c| !c.is_whitespace()).collect();
        assert_eq!(remove_whitespace(s), expected, "{s:?}");
    }
}

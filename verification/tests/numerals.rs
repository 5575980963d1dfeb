use bluos_api::decode::parse_flag;
use bluos_api::text::{parse_i16, parse_i64, parse_u8, render_i64, same_text};

#[test]
fn parse_i64_reads_numerals() {
    assert_eq!(parse_i64("0"), Some(0));
    assert_eq!(parse_i64("42"), Some(42));
    assert_eq!(parse_i64("-1"), Some(-1));
    assert_eq!(parse_i64("+17"), Some(17));
    assert_eq!(parse_i64("007"), Some(7));
    assert_eq!(parse_i64("-0"), Some(0));
    assert_eq!(parse_i64("9223372036854775807"), Some(i64::MAX));
    assert_eq!(parse_i64("-9223372036854775808"), Some(i64::MIN));
    assert_eq!(parse_i64("0000000000000000000000000000000012"), Some(12));
}

#[test]
fn parse_i64_refuses_everything_else() {
    assert_eq!(parse_i64(""), None);
    assert_eq!(parse_i64("-"), None);
    assert_eq!(parse_i64("+"), None);
    assert_eq!(parse_i64("--1"), None);
    assert_eq!(parse_i64("1-"), None);
    assert_eq!(parse_i64(" 1"), None);
    assert_eq!(parse_i64("1 "), None);
    assert_eq!(parse_i64("1_000"), None);
    assert_eq!(parse_i64("12a"), None);
    assert_eq!(parse_i64("1.0"), None);
    assert_eq!(parse_i64("٣"), None);
    assert_eq!(parse_i64("9223372036854775808"), None);
    assert_eq!(parse_i64("-9223372036854775809"), None);
    assert_eq!(parse_i64("123456789012345678901234567890"), None);
}

#[test]
fn parse_i64_agrees_with_std() {
    let samples = [
        "", "0", "-0", "+0", "5", "-5", "+5", "05", "5x", "x5", "-", "+", "+-5", "9223372036854775807",
        "9223372036854775808", "-9223372036854775808", "-9223372036854775809", " 7", "7\n", "１２",
    ];
    for s in samples {
        assert_eq!(parse_i64(s), s.parse::<i64>().ok(), "{:?}", s);
        assert_eq!(parse_i16(s), s.parse::<i16>().ok(), "{:?}", s);
        assert_eq!(parse_u8(s), s.parse::<u8>().ok(), "{:?}", s);
    }
}

#[test]
fn parse_i16_keeps_to_its_range() {
    assert_eq!(parse_i16("-1"), Some(-1));
    assert_eq!(parse_i16("100"), Some(100));
    assert_eq!(parse_i16("32767"), Some(32767));
    assert_eq!(parse_i16("32768"), None);
    assert_eq!(parse_i16("-32768"), Some(-32768));
    assert_eq!(parse_i16("-32769"), None);
}

#[test]
fn parse_u8_takes_no_minus() {
    assert_eq!(parse_u8("0"), Some(0));
    assert_eq!(parse_u8("+3"), Some(3));
    assert_eq!(parse_u8("255"), Some(255));
    assert_eq!(parse_u8("256"), None);
    assert_eq!(parse_u8("-0"), None);
    assert_eq!(parse_u8("-1"), None);
}

#[test]
fn render_i64_writes_shortest_numerals() {
    assert_eq!(render_i64(0), "0");
    assert_eq!(render_i64(7), "7");
    assert_eq!(render_i64(10), "10");
    assert_eq!(render_i64(-1), "-1");
    assert_eq!(render_i64(1234567890), "1234567890");
    assert_eq!(render_i64(i64::MAX), "9223372036854775807");
    assert_eq!(render_i64(i64::MIN), "-9223372036854775808");
}

#[test]
fn render_then_parse_is_identity() {
    for v in [0, 1, -1, 9, 10, 99, 100, -100, 65535, i64::MAX, i64::MIN, i64::MAX - 1, i64::MIN + 1] {
        assert_eq!(parse_i64(&render_i64(v)), Some(v));
        assert_eq!(render_i64(v), v.to_string());
    }
}

#[test]
fn flags() {
    assert_eq!(parse_flag("true"), Some(true));
    assert_eq!(parse_flag("1"), Some(true));
    assert_eq!(parse_flag("false"), Some(false));
    assert_eq!(parse_flag("0"), Some(false));
    assert_eq!(parse_flag("yes"), None);
    assert_eq!(parse_flag("True"), None);
    assert_eq!(parse_flag(""), None);
}

#[test]
fn same_text_compares_characters() {
    assert!(same_text("abc", "abc"));
    assert!(same_text("", ""));
    assert!(!same_text("abc", "abd"));
    assert!(!same_text("abc", "ab"));
    assert!(!same_text("abc", "ABC"));
}

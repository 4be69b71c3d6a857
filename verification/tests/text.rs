use oxidebot_example::text::{
    parse_i64, parse_u8, starts_with, trim_start_matches, u64_to_decimal,
};

#[test]
fn starts_with_checks_the_prefix() {
    assert!(starts_with("/echo hello", "/echo"));
    assert!(starts_with("/echo", "/echo"));
    assert!(starts_with("anything", ""));
    assert!(!starts_with("/ech", "/echo"));
    assert!(!starts_with(" /echo", "/echo"));
    assert!(starts_with("héllo wörld", "héllo"));
}

#[test]
fn trim_start_matches_removes_every_leading_copy() {
    assert_eq!(trim_start_matches("/echo/echo hi", "/echo"), " hi");
    assert_eq!(trim_start_matches("/echo hi /echo", "/echo"), " hi /echo");
    assert_eq!(trim_start_matches("hi", "/echo"), "hi");
    assert_eq!(trim_start_matches("/echo", "/echo"), "");
    assert_eq!(trim_start_matches("abc", ""), "abc");
    assert_eq!(trim_start_matches("ééx", "é"), "x");
}

#[test]
fn trimming_twice_is_trimming_once() {
    let once = trim_start_matches("ababab-ab", "ab");
    let twice = trim_start_matches(&once, "ab");
    assert_eq!(once, "-ab");
    assert_eq!(once, twice);
}

#[test]
fn decimal_rendering() {
    assert_eq!(u64_to_decimal(0), "0");
    assert_eq!(u64_to_decimal(7), "7");
    assert_eq!(u64_to_decimal(1234567), "1234567");
    assert_eq!(u64_to_decimal(u64::MAX), "18446744073709551615");
}

#[test]
fn parse_i64_accepts_signed_decimals() {
    assert_eq!(parse_i64("123456789"), Some(123456789));
    assert_eq!(parse_i64("-42"), Some(-42));
    assert_eq!(parse_i64("+7"), Some(7));
    assert_eq!(parse_i64("007"), Some(7));
    assert_eq!(parse_i64("-9223372036854775808"), Some(i64::MIN));
    assert_eq!(parse_i64("9223372036854775807"), Some(i64::MAX));
}

#[test]
fn parse_i64_rejects_other_text() {
    assert_eq!(parse_i64(""), None);
    assert_eq!(parse_i64("-"), None);
    assert_eq!(parse_i64("+"), None);
    assert_eq!(parse_i64("12a"), None);
    assert_eq!(parse_i64(" 12"), None);
    assert_eq!(parse_i64("9223372036854775808"), None);
}

#[test]
fn parse_u8_accepts_bytes_only() {
    assert_eq!(parse_u8("0"), Some(0));
    assert_eq!(parse_u8("255"), Some(255));
    assert_eq!(parse_u8("+5"), Some(5));
    assert_eq!(parse_u8("256"), None);
    assert_eq!(parse_u8("-0"), None);
    assert_eq!(parse_u8("ten"), None);
    assert_eq!(parse_u8(""), None);
}

use std::num::IntErrorKind as StdKind;
use tutorial_app::number_input::{error_message, parse_i32, IntErrorKind, NumberField};
use tutorial_app::text::format_i32;

fn std_kind(s: &str) -> Result<i32, IntErrorKind> {
    s.parse::<i32>().map_err(|e| match e.kind() {
        StdKind::Empty => IntErrorKind::Empty,
        StdKind::InvalidDigit => IntErrorKind::InvalidDigit,
        StdKind::PosOverflow => IntErrorKind::PosOverflow,
        StdKind::NegOverflow => IntErrorKind::NegOverflow,
        _ => panic!("unexpected kind"),
    })
}

#[test]
fn parses_plain_numbers() {
    assert_eq!(parse_i32("42"), Ok(42));
    assert_eq!(parse_i32("-17"), Ok(-17));
    assert_eq!(parse_i32("+5"), Ok(5));
    assert_eq!(parse_i32("007"), Ok(7));
    assert_eq!(parse_i32("0"), Ok(0));
    assert_eq!(parse_i32("-0"), Ok(0));
}

#[test]
fn parses_range_edges() {
    assert_eq!(parse_i32("2147483647"), Ok(i32::MAX));
    assert_eq!(parse_i32("-2147483648"), Ok(i32::MIN));
    assert_eq!(parse_i32("2147483648"), Err(IntErrorKind::PosOverflow));
    assert_eq!(parse_i32("-2147483649"), Err(IntErrorKind::NegOverflow));
}

#[test]
fn reports_each_error_kind() {
    assert_eq!(parse_i32(""), Err(IntErrorKind::Empty));
    assert_eq!(parse_i32("-"), Err(IntErrorKind::InvalidDigit));
    assert_eq!(parse_i32("+"), Err(IntErrorKind::InvalidDigit));
    assert_eq!(parse_i32("12a"), Err(IntErrorKind::InvalidDigit));
    assert_eq!(parse_i32(" 1"), Err(IntErrorKind::InvalidDigit));
    assert_eq!(parse_i32("1.5"), Err(IntErrorKind::InvalidDigit));
    assert_eq!(parse_i32("--1"), Err(IntErrorKind::InvalidDigit));
    assert_eq!(parse_i32("99999999999x"), Err(IntErrorKind::PosOverflow));
    assert_eq!(parse_i32("-99999999999x"), Err(IntErrorKind::NegOverflow));
    assert_eq!(parse_i32("x99999999999"), Err(IntErrorKind::InvalidDigit));
    assert_eq!(parse_i32("٣"), Err(IntErrorKind::InvalidDigit));
}

#[test]
fn agrees_with_std_parse() {
    let long = "9".repeat(40);
    let cases = [
        "", "+", "-", "0", "1", "-1", "+1", "12345", "-98765", "2147483646", "2147483647",
        "2147483648", "-2147483647", "-2147483648", "-2147483649", "00000000000000000001",
        "1e5", "1_000", "१२", "12é", "4294967296", "-4294967296", "21474836470", "2147483647a",
        "2147483648a", "+-3", "-+3", "++3", " ", "abc", long.as_str(),
    ];
    for c in cases.iter() {
        assert_eq!(parse_i32(c), std_kind(c), "input {:?}", c);
    }
}

#[test]
fn error_messages_match_std() {
    assert_eq!(error_message(IntErrorKind::Empty), "".parse::<i32>().unwrap_err().to_string());
    assert_eq!(error_message(IntErrorKind::InvalidDigit), "x".parse::<i32>().unwrap_err().to_string());
    assert_eq!(
        error_message(IntErrorKind::PosOverflow),
        "9999999999".parse::<i32>().unwrap_err().to_string()
    );
    assert_eq!(
        error_message(IntErrorKind::NegOverflow),
        "-9999999999".parse::<i32>().unwrap_err().to_string()
    );
    assert_eq!(error_message(IntErrorKind::Empty), "cannot parse integer from empty string");
}

#[test]
fn formats_like_display() {
    for v in [0, 1, -1, 9, 10, 99, 100, -100, 12345, -67890, i32::MAX, i32::MIN] {
        assert_eq!(format_i32(v), v.to_string());
    }
    assert_eq!(format_i32(-2147483648), "-2147483648");
}

#[test]
fn shown_number_parses_back() {
    for v in [0, 7, -7, 1000, i32::MAX, i32::MIN, 31415926] {
        assert_eq!(parse_i32(&format_i32(v)), Ok(v));
    }
}

#[test]
fn number_field_follows_input() {
    let mut f = NumberField::new();
    assert_eq!(f.value, Ok(0));
    assert_eq!(f.entered_text(), Some("0".to_string()));
    assert!(f.error_list().is_empty());
    f.on_input("123");
    assert_eq!(f.entered_text(), Some("123".to_string()));
    f.on_input("12x");
    assert_eq!(f.value, Err(IntErrorKind::InvalidDigit));
    assert_eq!(f.entered_text(), None);
    assert_eq!(f.error_list(), vec!["invalid digit found in string".to_string()]);
    f.on_input("");
    assert_eq!(f.error_list(), vec!["cannot parse integer from empty string".to_string()]);
}

use smart_home::decimal::{format_u32, parse_milli, parse_u32};
use smart_home::errors::ErrorSm;
use smart_home::text::str_eq;

#[test]
fn formats_exact_decimal_text() {
    assert_eq!(format_u32(0), "0");
    assert_eq!(format_u32(7), "7");
    assert_eq!(format_u32(2000), "2000");
    assert_eq!(format_u32(4294967295), "4294967295");
}

#[test]
fn parses_decimal_text_back() {
    assert_eq!(parse_u32("0"), Some(0));
    assert_eq!(parse_u32("2000"), Some(2000));
    assert_eq!(parse_u32("4294967295"), Some(4294967295));
}

#[test]
fn rejects_text_that_is_not_a_u32() {
    assert_eq!(parse_u32(""), None);
    assert_eq!(parse_u32("12a"), None);
    assert_eq!(parse_u32("-5"), None);
    assert_eq!(parse_u32("4294967296"), None);
    assert_eq!(parse_u32("99999999999999999999"), None);
}

#[test]
fn parses_fixed_point_readings_into_thousandths() {
    assert_eq!(parse_milli("25.73482"), Some(25_734));
    assert_eq!(parse_milli("-3.5"), Some(-3_500));
    assert_eq!(parse_milli("10"), Some(10_000));
    assert_eq!(parse_milli("5."), Some(5_000));
    assert_eq!(parse_milli("0.001"), Some(1));
    assert_eq!(parse_milli("-0.25"), Some(-250));
}

#[test]
fn rejects_malformed_readings() {
    assert_eq!(parse_milli(""), None);
    assert_eq!(parse_milli("."), None);
    assert_eq!(parse_milli(".5"), None);
    assert_eq!(parse_milli("-"), None);
    assert_eq!(parse_milli("1.2.3"), None);
    assert_eq!(parse_milli("abc"), None);
    assert_eq!(parse_milli("1e3"), None);
    assert_eq!(parse_milli("1000000000000"), None);
    assert_eq!(parse_milli("999999999999.999"), Some(999_999_999_999_999));
}

#[test]
fn string_equality_is_character_wise() {
    assert!(str_eq("state: on", "state: on"));
    assert!(!str_eq("state: on", "state: off"));
    assert!(str_eq("", ""));
    assert!(!str_eq("ab", "abc"));
}

#[test]
fn device_error_renders_its_text() {
    let e = ErrorSm { msg: "Device not respond".to_string() };
    assert_eq!(e.message(), "Operation not performed because : Device not respond");
}

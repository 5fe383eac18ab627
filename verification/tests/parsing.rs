//! The text helpers: string equality, hex colors, shortcut codes.

use fltk_decl::parse::parse_color;
use fltk_decl::parse::parse_shortcut;
use fltk_decl::parse::str_eq;

#[test]
fn str_eq_agrees() {
    assert!(str_eq("Column", "Column"));
    assert!(str_eq("", ""));
    assert!(!str_eq("Column", "Row"));
    assert!(!str_eq("Column", "Colum"));
    assert!(!str_eq("Colum", "Column"));
    assert!(str_eq("naïve", "naïve"));
    assert!(!str_eq("naïve", "naive"));
}

#[test]
fn color_parses_lower_and_upper_digits() {
    assert_eq!(parse_color("#20a0f0"), Some(0x20a0f0));
    assert_eq!(parse_color("#FFFFFF"), Some(0xffffff));
    assert_eq!(parse_color("#000000"), Some(0x000000));
    assert_eq!(parse_color("#AbCdEf"), Some(0xabcdef));
}

#[test]
fn color_ignores_trailing_text() {
    assert_eq!(parse_color("#12345678"), Some(0x123456));
    assert_eq!(parse_color("#abcdefzz"), Some(0xabcdef));
}

#[test]
fn color_rejects_malformed_specs() {
    assert_eq!(parse_color(""), None);
    assert_eq!(parse_color("#fff"), None);
    assert_eq!(parse_color("20a0f0f"), None);
    assert_eq!(parse_color("#20a0g0"), None);
    assert_eq!(parse_color("##20a0f"), None);
    assert_eq!(parse_color("#äbcdef"), None);
}

#[test]
fn shortcut_parses_signed_decimals() {
    assert_eq!(parse_shortcut("65"), Some(65));
    assert_eq!(parse_shortcut("+65"), Some(65));
    assert_eq!(parse_shortcut("-65"), Some(-65));
    assert_eq!(parse_shortcut("0"), Some(0));
    assert_eq!(parse_shortcut("-0"), Some(0));
    assert_eq!(parse_shortcut("0000000000000042"), Some(42));
}

#[test]
fn shortcut_honors_the_32_bit_range() {
    assert_eq!(parse_shortcut("2147483647"), Some(2147483647));
    assert_eq!(parse_shortcut("2147483648"), None);
    assert_eq!(parse_shortcut("-2147483648"), Some(-2147483648));
    assert_eq!(parse_shortcut("-2147483649"), None);
    assert_eq!(parse_shortcut("99999999999999999999"), None);
}

#[test]
fn shortcut_rejects_malformed_literals() {
    assert_eq!(parse_shortcut(""), None);
    assert_eq!(parse_shortcut("+"), None);
    assert_eq!(parse_shortcut("-"), None);
    assert_eq!(parse_shortcut("12a"), None);
    assert_eq!(parse_shortcut(" 12"), None);
    assert_eq!(parse_shortcut("1.5"), None);
}

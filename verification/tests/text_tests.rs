use iclock_sync::company_config::saved_text_is_blank;
use iclock_sync::text::{header_value_ok, push_decimal};

fn decimal(n: u64) -> String {
    let mut s = String::from("x");
    push_decimal(&mut s, n);
    s
}

#[test]
fn decimal_rendering_appends_digits() {
    assert_eq!(decimal(0), "x0");
    assert_eq!(decimal(7), "x7");
    assert_eq!(decimal(10), "x10");
    assert_eq!(decimal(4370), "x4370");
    assert_eq!(decimal(65535), "x65535");
    assert_eq!(decimal(u64::MAX), "x18446744073709551615");
}

#[test]
fn header_values_accept_visible_text_and_tabs() {
    assert!(header_value_ok(""));
    assert!(header_value_ok("JWT abc.def-ghi"));
    assert!(header_value_ok("a\tb"));
    assert!(header_value_ok("clé"));
}

#[test]
fn header_values_refuse_control_characters() {
    assert!(!header_value_ok("abc\n"));
    assert!(!header_value_ok("a\rb"));
    assert!(!header_value_ok("\u{7f}"));
    assert!(!header_value_ok("\u{0}"));
}

#[test]
fn saved_text_blank_when_empty_or_braces() {
    assert!(saved_text_is_blank(""));
    assert!(saved_text_is_blank("   \n\t"));
    assert!(saved_text_is_blank("{}"));
    assert!(saved_text_is_blank("  {}\n"));
    assert!(saved_text_is_blank("\u{a0}{}\u{3000}"));
}

#[test]
fn saved_text_not_blank_with_content() {
    assert!(!saved_text_is_blank("{ }"));
    assert!(!saved_text_is_blank("{\"ruc\":\"1\"}"));
    assert!(!saved_text_is_blank("x"));
}

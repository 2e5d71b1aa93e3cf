use dobby::hex::is_lower_hex;
use dobby::net::IpAddress;
use dobby::text::{chars_of, find_char, parse_unsigned_in, rfind_char, starts_with, trimmed_range};

#[test]
fn lower_hex_check() {
    assert!(is_lower_hex(&chars_of("0123456789abcdef")));
    assert!(!is_lower_hex(&chars_of("0123456789ABCDEF")));
    assert!(!is_lower_hex(&chars_of("xyz")));
    assert!(is_lower_hex(&[]));
}

#[test]
fn text_helpers() {
    let s = chars_of("  a:b:c \t");
    assert_eq!(trimmed_range(&s), (2, 7));
    assert_eq!(find_char(&s, ':'), Some(3));
    assert_eq!(rfind_char(&s, ':'), Some(5));
    assert_eq!(find_char(&s, '#'), None);
    assert!(starts_with(&s, &chars_of("  a")));
    assert!(!starts_with(&s, &chars_of("a")));
    let digits = chars_of("x+0042y");
    assert_eq!(parse_unsigned_in(&digits, 1, 6, 255), Some(42));
    assert_eq!(parse_unsigned_in(&digits, 1, 6, 40), None);
    assert_eq!(parse_unsigned_in(&digits, 1, 2, 255), None);
    let ws = chars_of("\u{3000}x\u{a0}");
    assert_eq!(trimmed_range(&ws), (1, 2));
}

#[test]
fn address_family() {
    assert!(IpAddress::V4([1, 1, 1, 1]).is_ipv4());
    assert!(!IpAddress::V6([0; 8]).is_ipv4());
}

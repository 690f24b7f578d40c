use engine::text::{decimal_text, digit_text, equal_ignoring_ascii_case, hex_encode};

#[test]
fn decimal_of_small_and_large_numbers() {
    assert_eq!(decimal_text(0), "0");
    assert_eq!(decimal_text(7), "7");
    assert_eq!(decimal_text(10), "10");
    assert_eq!(decimal_text(50002), "50002");
    assert_eq!(decimal_text(65535), "65535");
    assert_eq!(decimal_text(u32::MAX), "4294967295");
}

#[test]
fn hex_digits_are_lower_case() {
    let all: Vec<&str> = (0u8..16).map(digit_text).collect();
    assert_eq!(all.concat(), "0123456789abcdef");
}

#[test]
fn hex_encoding_puts_the_high_nibble_first() {
    assert_eq!(hex_encode(&[]), "");
    assert_eq!(hex_encode(&[0x00, 0xff, 0x1a, 0xb0]), "00ff1ab0");
}

#[test]
fn ascii_case_is_ignored_only_for_ascii_letters() {
    assert!(equal_ignoring_ascii_case("AbCdEf01", "aBcDeF01"));
    assert!(equal_ignoring_ascii_case("", ""));
    assert!(!equal_ignoring_ascii_case("abc", "abd"));
    assert!(!equal_ignoring_ascii_case("abc", "abcd"));
    assert!(!equal_ignoring_ascii_case("É", "é"));
    assert!(!equal_ignoring_ascii_case("[", "{"));
}

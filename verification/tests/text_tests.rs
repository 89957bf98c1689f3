use lib::decimal::push_decimal;
use lib::ucs2::{char_to_ucs2, encode_ucs2};

#[test]
fn ucs2_of_path() {
    assert_eq!(encode_ucs2("\\EFI\0"), vec![0x5C, 0x45, 0x46, 0x49, 0]);
}

#[test]
fn ucs2_of_empty_text() {
    assert!(encode_ucs2("").is_empty());
}

#[test]
fn ucs2_keeps_one_unit_per_character() {
    assert_eq!(encode_ucs2("é\u{1F600}"), vec![0xE9, 0xF600]);
    assert_eq!(char_to_ucs2('\u{10000}'), 0);
    assert_eq!(char_to_ucs2('\u{FFFF}'), 0xFFFF);
}

#[test]
fn decimal_of_zero() {
    let mut s = String::new();
    push_decimal(&mut s, 0);
    assert_eq!(s, "0");
}

#[test]
fn decimal_of_several_digits() {
    let mut s = String::from("n=");
    push_decimal(&mut s, 1234);
    assert_eq!(s, "n=1234");
}

#[test]
fn decimal_matches_standard_formatting() {
    for n in [1usize, 9, 10, 99, 100, 33554432, 4096000, usize::MAX] {
        let mut s = String::new();
        push_decimal(&mut s, n);
        assert_eq!(s, n.to_string());
    }
}

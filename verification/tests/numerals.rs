// Decimal rendering of the forwarded numeric limits.

use audio_to_srt_core::numeral::decimal_string;
use audio_to_srt_core::numeral::decimal_string_i32;

#[test]
fn single_digit() {
    assert_eq!(decimal_string_i32(0), "0");
    assert_eq!(decimal_string_i32(7), "7");
}

#[test]
fn several_digits() {
    assert_eq!(decimal_string_i32(42), "42");
    assert_eq!(decimal_string_i32(123456), "123456");
}

#[test]
fn negative_values_take_a_sign() {
    assert_eq!(decimal_string_i32(-5), "-5");
    assert_eq!(decimal_string_i32(-120), "-120");
}

#[test]
fn extreme_values() {
    assert_eq!(decimal_string_i32(i32::MAX), "2147483647");
    assert_eq!(decimal_string_i32(i32::MIN), "-2147483648");
}

#[test]
fn unsigned_digits() {
    assert_eq!(decimal_string(0), "0");
    assert_eq!(decimal_string(10), "10");
    assert_eq!(decimal_string(18446744073709551615), "18446744073709551615");
}

#[test]
fn no_leading_zeros() {
    assert_eq!(decimal_string(100), "100");
    assert_eq!(decimal_string_i32(1000), "1000");
}

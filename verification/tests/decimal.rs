//! Canonical decimal text.

use uwu::decimal::{format_int, format_nat};

#[test]
fn natural_numbers() {
    assert_eq!(format_nat(0), "0");
    assert_eq!(format_nat(7), "7");
    assert_eq!(format_nat(10), "10");
    assert_eq!(format_nat(109), "109");
    assert_eq!(format_nat(1234567890), "1234567890");
    assert_eq!(format_nat(u64::MAX), "18446744073709551615");
}

#[test]
fn integers() {
    assert_eq!(format_int(0), "0");
    assert_eq!(format_int(5), "5");
    assert_eq!(format_int(-5), "-5");
    assert_eq!(format_int(-10), "-10");
    assert_eq!(format_int(1000), "1000");
    assert_eq!(format_int(i64::MAX), "9223372036854775807");
    assert_eq!(format_int(i64::MIN), "-9223372036854775808");
}

#[test]
fn integers_read_back() {
    let samples =
        [0i64, 1, -1, 9, 10, 11, 99, 100, -100, 4096, -65535, i64::MAX, i64::MIN, i64::MIN + 1];
    for value in samples {
        let text = format_int(value);
        assert_eq!(text, value.to_string());
        assert_eq!(text.parse::<i64>(), Ok(value));
    }
}

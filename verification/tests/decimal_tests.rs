use rust_features::decimal::{i32_to_decimal, u64_to_decimal};

#[test]
fn test_u64_zero() {
    assert_eq!(u64_to_decimal(0), "0");
}

#[test]
fn test_u64_one_digit() {
    assert_eq!(u64_to_decimal(7), "7");
}

#[test]
fn test_u64_two_digits() {
    assert_eq!(u64_to_decimal(10), "10");
}

#[test]
fn test_u64_many_digits() {
    assert_eq!(u64_to_decimal(1234567890), "1234567890");
}

#[test]
fn test_u64_largest() {
    assert_eq!(u64_to_decimal(u64::MAX), "18446744073709551615");
}

#[test]
fn test_i32_zero() {
    assert_eq!(i32_to_decimal(0), "0");
}

#[test]
fn test_i32_negative() {
    assert_eq!(i32_to_decimal(-1), "-1");
}

#[test]
fn test_i32_smallest() {
    assert_eq!(i32_to_decimal(i32::MIN), "-2147483648");
}

#[test]
fn test_i32_largest() {
    assert_eq!(i32_to_decimal(i32::MAX), "2147483647");
}

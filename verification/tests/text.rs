use fulfillment::text::{push_decimal, push_digits};

fn digits(n: u64) -> String {
    let mut text = String::new();
    push_digits(&mut text, n);
    text
}

fn decimal(n: i64) -> String {
    let mut text = String::new();
    push_decimal(&mut text, n);
    text
}

#[test]
fn digits_of_unsigned_numbers() {
    assert_eq!(digits(0), "0");
    assert_eq!(digits(7), "7");
    assert_eq!(digits(10), "10");
    assert_eq!(digits(1234567890), "1234567890");
    assert_eq!(digits(u64::MAX), "18446744073709551615");
    for n in [1, 9, 11, 99, 100, 101, 909, 1000, 65535, 1 << 40, u64::MAX - 1] {
        assert_eq!(digits(n), format!("{}", n));
    }
}

#[test]
fn decimal_of_signed_numbers() {
    assert_eq!(decimal(0), "0");
    assert_eq!(decimal(42), "42");
    assert_eq!(decimal(-1), "-1");
    assert_eq!(decimal(-120), "-120");
    assert_eq!(decimal(i64::MAX), "9223372036854775807");
    assert_eq!(decimal(i64::MIN), "-9223372036854775808");
    for n in [-9, -10, -11, 5, 10, 99, -1000, i64::MIN + 1, i64::MAX - 1] {
        assert_eq!(decimal(n), format!("{}", n));
    }
}

#[test]
fn numbers_are_appended_to_what_is_there() {
    let mut text = "id ".to_string();
    push_decimal(&mut text, -35);
    push_digits(&mut text, 80);
    assert_eq!(text, "id -3580");
}

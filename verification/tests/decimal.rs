use nodo_tui::decimal::{digit_char, i32_to_decimal};

#[test]
fn digits_are_the_ascii_digits() {
    let digits: String = (0..10).map(digit_char).collect();
    assert_eq!(digits, "0123456789");
}

#[test]
fn decimal_of_small_numbers() {
    assert_eq!(i32_to_decimal(0), "0");
    assert_eq!(i32_to_decimal(7), "7");
    assert_eq!(i32_to_decimal(10), "10");
    assert_eq!(i32_to_decimal(101), "101");
    assert_eq!(i32_to_decimal(-1), "-1");
    assert_eq!(i32_to_decimal(-120), "-120");
}

#[test]
fn decimal_of_the_extremes() {
    assert_eq!(i32_to_decimal(i32::MAX), "2147483647");
    assert_eq!(i32_to_decimal(i32::MIN), "-2147483648");
}

#[test]
fn decimal_agrees_with_display() {
    let mut value: i32 = -1_000_003;
    for _ in 0..400 {
        assert_eq!(i32_to_decimal(value), value.to_string());
        value = value.wrapping_mul(31).wrapping_add(17);
    }
}

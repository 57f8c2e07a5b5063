use day::numeral::{digit_count, push_decimal, push_signed_zero_padded, push_zero_padded};

fn padded(n: u32, width: usize) -> String {
    let mut text = String::new();
    push_zero_padded(&mut text, n, width);
    text
}

fn signed(v: i32, width: usize) -> String {
    let mut text = String::new();
    push_signed_zero_padded(&mut text, v, width);
    text
}

#[test]
fn decimal_of_zero_is_one_digit() {
    let mut text = String::new();
    push_decimal(&mut text, 0);
    assert_eq!(text, "0");
}

#[test]
fn decimal_keeps_what_was_there() {
    let mut text = String::from("n=");
    push_decimal(&mut text, 4096);
    assert_eq!(text, "n=4096");
}

#[test]
fn decimal_of_the_largest_number() {
    let mut text = String::new();
    push_decimal(&mut text, u32::MAX);
    assert_eq!(text, "4294967295");
}

#[test]
fn digit_count_at_the_powers_of_ten() {
    assert_eq!(digit_count(0), 1);
    assert_eq!(digit_count(9), 1);
    assert_eq!(digit_count(10), 2);
    assert_eq!(digit_count(99), 2);
    assert_eq!(digit_count(100), 3);
    assert_eq!(digit_count(999_999_999), 9);
    assert_eq!(digit_count(1_000_000_000), 10);
    assert_eq!(digit_count(u32::MAX), 10);
}

#[test]
fn padding_fills_up_to_the_width() {
    assert_eq!(padded(1, 2), "01");
    assert_eq!(padded(9, 2), "09");
    assert_eq!(padded(0, 2), "00");
    assert_eq!(padded(7, 4), "0007");
    assert_eq!(padded(7, 12), "000000000007");
}

#[test]
fn padding_leaves_a_full_numeral_alone() {
    assert_eq!(padded(12, 2), "12");
    assert_eq!(padded(31, 2), "31");
    assert_eq!(padded(2024, 4), "2024");
}

#[test]
fn padding_never_cuts() {
    assert_eq!(padded(100, 2), "100");
    assert_eq!(padded(12345, 4), "12345");
    assert_eq!(padded(5, 0), "5");
    assert_eq!(padded(5, 1), "5");
}

#[test]
fn padding_appends_to_the_text() {
    let mut text = String::from("x");
    push_zero_padded(&mut text, 3, 2);
    push_zero_padded(&mut text, 45, 2);
    assert_eq!(text, "x0345");
}

#[test]
fn a_negative_number_has_its_sign_before_the_zeros() {
    assert_eq!(signed(-5, 4), "-005");
    assert_eq!(signed(-1, 2), "-1");
    assert_eq!(signed(-24, 2), "-24");
    assert_eq!(signed(-2024, 4), "-2024");
    assert_eq!(signed(-5, 0), "-5");
    assert_eq!(signed(-5, 1), "-5");
}

#[test]
fn a_number_that_is_not_negative_has_no_sign() {
    assert_eq!(signed(0, 4), "0000");
    assert_eq!(signed(5, 4), "0005");
    assert_eq!(signed(2024, 4), "2024");
    assert_eq!(signed(24, 2), "24");
}

#[test]
fn the_ends_of_the_signed_range() {
    assert_eq!(signed(i32::MAX, 4), "2147483647");
    assert_eq!(signed(i32::MIN, 4), "-2147483648");
}

#[test]
fn padded_numbers_read_as_the_formatter_writes_them() {
    for n in (0..3000u32).chain([9_999, 10_000, 99_999, 4_000_000_000, u32::MAX]) {
        assert_eq!(padded(n, 2), format!("{:02}", n));
        assert_eq!(padded(n, 4), format!("{:04}", n));
    }
}

#[test]
fn signed_numbers_read_as_the_formatter_writes_them() {
    for v in (-3000..3000i32).chain([-10_000, 10_000, -99_999, i32::MIN, i32::MAX]) {
        assert_eq!(signed(v, 2), format!("{:02}", v));
        assert_eq!(signed(v, 4), format!("{:04}", v));
        assert_eq!(signed(v, 7), format!("{:07}", v));
    }
}

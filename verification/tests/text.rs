use rust_csv::text::push_decimal;
use rust_csv::text::push_signed;

fn decimal(n: u64) -> String {
    let mut out = String::new();
    push_decimal(&mut out, n);
    out
}

fn signed(i: i64) -> String {
    let mut out = String::new();
    push_signed(&mut out, i);
    out
}

#[test]
fn decimal_has_no_leading_zeros() {
    assert_eq!(decimal(0), "0");
    assert_eq!(decimal(7), "7");
    assert_eq!(decimal(10), "10");
    assert_eq!(decimal(909), "909");
    assert_eq!(decimal(1000), "1000");
    assert_eq!(decimal(u64::MAX), u64::MAX.to_string());
}

#[test]
fn decimal_is_added_behind_what_is_there() {
    let mut out = String::from("n = ");
    push_decimal(&mut out, 42);
    push_decimal(&mut out, 0);
    assert_eq!(out, "n = 420");
}

#[test]
fn signed_decimal_puts_minus_in_front() {
    assert_eq!(signed(0), "0");
    assert_eq!(signed(15), "15");
    assert_eq!(signed(-1), "-1");
    assert_eq!(signed(-120), "-120");
    assert_eq!(signed(i64::MAX), i64::MAX.to_string());
    assert_eq!(signed(i64::MIN), i64::MIN.to_string());
}

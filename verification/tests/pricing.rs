//! The complementary-price computation on concrete quotes.

use updown_book::pricing::complement;

fn c(p: &str) -> Option<String> {
    complement(p)
}

#[test]
fn simple_two_decimals() {
    assert_eq!(c("0.40"), Some(String::from("0.60")));
    assert_eq!(c("0.12"), Some(String::from("0.88")));
    assert_eq!(c("0.5"), Some(String::from("0.50")));
}

#[test]
fn bounds_zero_and_one() {
    assert_eq!(c("0"), Some(String::from("1.00")));
    assert_eq!(c("0.00"), Some(String::from("1.00")));
    assert_eq!(c("1"), Some(String::from("0.00")));
    assert_eq!(c("1.000"), Some(String::from("0.00")));
    assert_eq!(c("01"), Some(String::from("0.00")));
}

#[test]
fn leading_dot_and_trailing_dot() {
    assert_eq!(c(".5"), Some(String::from("0.50")));
    assert_eq!(c("0."), Some(String::from("1.00")));
}

#[test]
fn rounding_half_away_from_zero() {
    // 1 - 0.005 = 0.995, which rounds up to 1.00.
    assert_eq!(c("0.005"), Some(String::from("1.00")));
    // 1 - 0.0051 = 0.9949, which rounds down to 0.99.
    assert_eq!(c("0.0051"), Some(String::from("0.99")));
    // 1 - 0.999 = 0.001, which rounds down to 0.00.
    assert_eq!(c("0.999"), Some(String::from("0.00")));
    // 1 - 0.4999 = 0.5001, which rounds to 0.50.
    assert_eq!(c("0.4999"), Some(String::from("0.50")));
    // 1 - 0.3350 = 0.665, a tie, away from zero: 0.67.
    assert_eq!(c("0.335"), Some(String::from("0.67")));
}

#[test]
fn long_fractions() {
    assert_eq!(c("0.400000000000000000001"), Some(String::from("0.60")));
    assert_eq!(c("0.0000000000000000000001"), Some(String::from("1.00")));
}

#[test]
fn out_of_range_yields_no_derived_quote() {
    assert_eq!(c("1.001"), None);
    assert_eq!(c("2"), None);
    assert_eq!(c("10"), None);
    assert_eq!(c("1.0000000001"), None);
}

#[test]
fn non_numeric_yields_no_derived_quote() {
    assert_eq!(c(""), None);
    assert_eq!(c("."), None);
    assert_eq!(c("abc"), None);
    assert_eq!(c("-0.5"), None);
    assert_eq!(c("0.5.5"), None);
    assert_eq!(c("0.5e-1"), None);
    assert_eq!(c("0. 5"), None);
}

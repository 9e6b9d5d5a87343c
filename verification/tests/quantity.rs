//! Parsing the sale quantity from decimal text.

use ido_pool::quantity::parse_token_quantity;

#[test]
fn plain_quantities_parse() {
    assert_eq!(parse_token_quantity(b"0"), Some(0));
    assert_eq!(parse_token_quantity(b"7"), Some(7));
    assert_eq!(parse_token_quantity(b"1000000"), Some(1_000_000));
    assert_eq!(parse_token_quantity(b"5000000000"), Some(5_000_000_000));
}

#[test]
fn leading_zeros_are_just_digits() {
    assert_eq!(parse_token_quantity(b"007"), Some(7));
    assert_eq!(parse_token_quantity(b"000"), Some(0));
}

#[test]
fn the_largest_balance_parses_and_one_more_does_not() {
    assert_eq!(parse_token_quantity(b"18446744073709551615"), Some(u64::MAX));
    assert_eq!(parse_token_quantity(b"18446744073709551616"), None);
    assert_eq!(parse_token_quantity(b"99999999999999999999999"), None);
}

#[test]
fn empty_text_is_no_quantity() {
    assert_eq!(parse_token_quantity(b""), None);
}

#[test]
fn text_with_a_non_digit_is_no_quantity() {
    assert_eq!(parse_token_quantity(b"12a4"), None);
    assert_eq!(parse_token_quantity(b"-5"), None);
    assert_eq!(parse_token_quantity(b"+5"), None);
    assert_eq!(parse_token_quantity(b" 5"), None);
    assert_eq!(parse_token_quantity(b"1 "), None);
}

use linktor::parse::{parse_i64, parse_u64};

#[test]
fn parses_plain_decimals() {
    assert_eq!(parse_i64("300"), Some(300));
    assert_eq!(parse_i64("0"), Some(0));
    assert_eq!(parse_i64("007"), Some(7));
    assert_eq!(parse_u64("60"), Some(60));
}

#[test]
fn parses_signed_decimals() {
    assert_eq!(parse_i64("-5"), Some(-5));
    assert_eq!(parse_i64("+7"), Some(7));
    assert_eq!(parse_i64("-0"), Some(0));
    assert_eq!(parse_u64("+60"), Some(60));
    assert_eq!(parse_u64("-1"), None);
}

#[test]
fn rejects_empty_and_bare_signs() {
    assert_eq!(parse_i64(""), None);
    assert_eq!(parse_i64("-"), None);
    assert_eq!(parse_i64("+"), None);
    assert_eq!(parse_u64(""), None);
    assert_eq!(parse_u64("+"), None);
}

#[test]
fn rejects_non_digits() {
    assert_eq!(parse_i64("abc"), None);
    assert_eq!(parse_i64("12a"), None);
    assert_eq!(parse_i64(" 3"), None);
    assert_eq!(parse_i64("3 "), None);
    assert_eq!(parse_i64("+-3"), None);
    assert_eq!(parse_i64("1.5"), None);
    assert_eq!(parse_u64("soon"), None);
}

#[test]
fn handles_the_64_bit_range_exactly() {
    assert_eq!(parse_i64("9223372036854775807"), Some(i64::MAX));
    assert_eq!(parse_i64("-9223372036854775808"), Some(i64::MIN));
    assert_eq!(parse_i64("9223372036854775808"), None);
    assert_eq!(parse_i64("-9223372036854775809"), None);
    assert_eq!(parse_u64("18446744073709551615"), Some(u64::MAX));
    assert_eq!(parse_u64("18446744073709551616"), None);
}

#[test]
fn agrees_with_the_standard_parser() {
    for s in ["42", "-42", "+0", "999999999999", "x", "", "-", "10000000000000000000"] {
        assert_eq!(parse_i64(s), s.parse::<i64>().ok());
        assert_eq!(parse_u64(s), s.parse::<u64>().ok());
    }
}

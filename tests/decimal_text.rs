use cookie_session::parse_unsigned;

#[test]
fn plain_digits() {
    assert_eq!(parse_unsigned("0", u64::MAX), Some(0));
    assert_eq!(parse_unsigned("42", u64::MAX), Some(42));
    assert_eq!(parse_unsigned("000123", u64::MAX), Some(123));
}

#[test]
fn one_plus_sign_is_allowed() {
    assert_eq!(parse_unsigned("+17", u64::MAX), Some(17));
    assert_eq!(parse_unsigned("+", u64::MAX), None);
    assert_eq!(parse_unsigned("++1", u64::MAX), None);
}

#[test]
fn other_text_is_refused() {
    assert_eq!(parse_unsigned("", u64::MAX), None);
    assert_eq!(parse_unsigned("-1", u64::MAX), None);
    assert_eq!(parse_unsigned("-0", u64::MAX), None);
    assert_eq!(parse_unsigned(" 1", u64::MAX), None);
    assert_eq!(parse_unsigned("1 ", u64::MAX), None);
    assert_eq!(parse_unsigned("1_000", u64::MAX), None);
    assert_eq!(parse_unsigned("\u{663}", u64::MAX), None);
    assert_eq!(parse_unsigned("1\u{e9}", u64::MAX), None);
}

#[test]
fn bound_is_inclusive() {
    assert_eq!(parse_unsigned("4294967295", u32::MAX as u64), Some(4294967295));
    assert_eq!(parse_unsigned("4294967296", u32::MAX as u64), None);
    assert_eq!(parse_unsigned("18446744073709551615", u64::MAX), Some(u64::MAX));
    assert_eq!(parse_unsigned("18446744073709551616", u64::MAX), None);
    assert_eq!(parse_unsigned("99999999999999999999999", u64::MAX), None);
    assert_eq!(parse_unsigned("10", 9), None);
}

#[test]
fn agrees_with_std_parse() {
    let cases = ["", "+", "0", "+0", "-0", "12", "+12", "1a", "4294967295", "4294967296", " 7"];
    for c in cases {
        assert_eq!(parse_unsigned(c, u32::MAX as u64).map(|v| v as u32), c.parse::<u32>().ok());
        assert_eq!(parse_unsigned(c, u64::MAX), c.parse::<u64>().ok());
    }
}

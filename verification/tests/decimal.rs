use mastodon_exporter::decimal::parse_decimal;

#[test]
fn plain_digits_are_read() {
    assert_eq!(parse_decimal("0"), Some(0));
    assert_eq!(parse_decimal("42"), Some(42));
    assert_eq!(parse_decimal("299"), Some(299));
    assert_eq!(parse_decimal("007"), Some(7));
}

#[test]
fn a_sign_may_lead() {
    assert_eq!(parse_decimal("-7"), Some(-7));
    assert_eq!(parse_decimal("+5"), Some(5));
    assert_eq!(parse_decimal("-0"), Some(0));
}

#[test]
fn a_sign_alone_is_no_number() {
    assert_eq!(parse_decimal(""), None);
    assert_eq!(parse_decimal("+"), None);
    assert_eq!(parse_decimal("-"), None);
    assert_eq!(parse_decimal("+-1"), None);
    assert_eq!(parse_decimal("1-"), None);
}

#[test]
fn anything_but_digits_is_refused() {
    assert_eq!(parse_decimal("12a"), None);
    assert_eq!(parse_decimal(" 12"), None);
    assert_eq!(parse_decimal("12 "), None);
    assert_eq!(parse_decimal("1_000"), None);
    assert_eq!(parse_decimal("1.5"), None);
    assert_eq!(parse_decimal("٣"), None);
    assert_eq!(parse_decimal("0x10"), None);
}

#[test]
fn the_range_ends_are_read_and_nothing_beyond() {
    assert_eq!(parse_decimal("9223372036854775807"), Some(i64::MAX));
    assert_eq!(parse_decimal("9223372036854775808"), None);
    assert_eq!(parse_decimal("-9223372036854775808"), Some(i64::MIN));
    assert_eq!(parse_decimal("-9223372036854775809"), None);
    assert_eq!(parse_decimal("99999999999999999999999999"), None);
    assert_eq!(parse_decimal("99999999999999999999999999x"), None);
}

#[test]
fn agrees_with_the_standard_parser() {
    let samples = vec![
        "", "0", "-0", "+0", "1", "-1", "+1", "10", "0010", "-", "+", "--1", "++1", "1+", "a",
        "1a", "a1", " 1", "1 ", "9223372036854775807", "9223372036854775808",
        "-9223372036854775808", "-9223372036854775809", "18446744073709551616", "１２",
    ];
    for text in samples {
        assert_eq!(parse_decimal(text), text.parse::<i64>().ok(), "{:?}", text);
    }
}

use pomodoro::parse::parse_u64;

#[test]
fn parses_plain_numbers() {
    assert_eq!(parse_u64("25"), Some(25));
    assert_eq!(parse_u64("0"), Some(0));
    assert_eq!(parse_u64("007"), Some(7));
    assert_eq!(parse_u64("150"), Some(150));
}

#[test]
fn rejects_empty_text() {
    assert_eq!(parse_u64(""), None);
}

#[test]
fn rejects_non_digits() {
    assert_eq!(parse_u64("abc"), None);
    assert_eq!(parse_u64("1a"), None);
    assert_eq!(parse_u64("a1"), None);
    assert_eq!(parse_u64(" 1"), None);
    assert_eq!(parse_u64("-1"), None);
    assert_eq!(parse_u64("+1"), None);
    assert_eq!(parse_u64("2.5"), None);
}

#[test]
fn largest_value_fits() {
    assert_eq!(parse_u64("18446744073709551615"), Some(u64::MAX));
}

#[test]
fn overflowing_values_are_rejected() {
    assert_eq!(parse_u64("18446744073709551616"), None);
    assert_eq!(parse_u64("99999999999999999999999"), None);
}

use webopts::num::parse_u64;

#[test]
fn plain_digits_parse() {
    assert_eq!(parse_u64("0"), Some(0));
    assert_eq!(parse_u64("60"), Some(60));
    assert_eq!(parse_u64("120"), Some(120));
    assert_eq!(parse_u64("007"), Some(7));
}

#[test]
fn leading_plus_is_accepted() {
    assert_eq!(parse_u64("+60"), Some(60));
    assert_eq!(parse_u64("+0"), Some(0));
}

#[test]
fn empty_and_sign_only_are_rejected() {
    assert_eq!(parse_u64(""), None);
    assert_eq!(parse_u64("+"), None);
}

#[test]
fn non_digit_text_is_rejected() {
    assert_eq!(parse_u64("abc"), None);
    assert_eq!(parse_u64("12a"), None);
    assert_eq!(parse_u64(" 5"), None);
    assert_eq!(parse_u64("5 "), None);
    assert_eq!(parse_u64("-5"), None);
    assert_eq!(parse_u64("1.5"), None);
}

#[test]
fn limit_boundary() {
    assert_eq!(parse_u64("18446744073709551615"), Some(u64::MAX));
    assert_eq!(parse_u64("18446744073709551616"), None);
    assert_eq!(parse_u64("99999999999999999999999"), None);
}

#[test]
fn agrees_with_the_standard_parser() {
    for text in ["0", "1", "42", "120", "+9", "18446744073709551615", "18446744073709551616", "x", ""] {
        assert_eq!(parse_u64(text), text.parse::<u64>().ok());
    }
}

use tty_relay::is_number;

#[test]
fn test_is_number_plain_digits() {
    assert!(is_number("0").is_ok());
    assert!(is_number("42").is_ok());
    assert!(is_number("0042").is_ok());
}

#[test]
fn test_is_number_signed() {
    assert!(is_number("+7").is_ok());
    assert!(is_number("-7").is_ok());
}

#[test]
fn test_is_number_bounds() {
    assert!(is_number("2147483647").is_ok());
    assert!(is_number("2147483648").is_err());
    assert!(is_number("-2147483648").is_ok());
    assert!(is_number("-2147483649").is_err());
    assert!(is_number("99999999999999999999").is_err());
}

#[test]
fn test_is_number_rejects_garbage() {
    assert!(is_number("").is_err());
    assert!(is_number("+").is_err());
    assert!(is_number("-").is_err());
    assert!(is_number("abc").is_err());
    assert!(is_number("12x").is_err());
    assert!(is_number("--1").is_err());
    assert!(is_number(" 1").is_err());
    assert!(is_number("1 ").is_err());
}

#[test]
fn test_is_number_matches_std_parse() {
    let cases = [
        "0", "42", "+7", "-7", "2147483647", "2147483648", "-2147483648", "-2147483649", "", "+",
        "-", "abc", "12x", "--1", " 1", "1 ", "0042", "00000000000000000042",
    ];
    for s in cases {
        assert_eq!(is_number(s).is_ok(), s.parse::<i32>().is_ok(), "case {:?}", s);
    }
}

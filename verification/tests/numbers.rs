use shell_core::number::{decimal, parse_i32};

#[test]
fn parses_plain_digits() {
    assert_eq!(parse_i32("7"), Some(7));
    assert_eq!(parse_i32("0"), Some(0));
    assert_eq!(parse_i32("42"), Some(42));
    assert_eq!(parse_i32("255"), Some(255));
}

#[test]
fn parses_signs() {
    assert_eq!(parse_i32("+7"), Some(7));
    assert_eq!(parse_i32("-7"), Some(-7));
    assert_eq!(parse_i32("-0"), Some(0));
    assert_eq!(parse_i32("+0"), Some(0));
}

#[test]
fn parses_leading_zeros() {
    assert_eq!(parse_i32("007"), Some(7));
    assert_eq!(parse_i32("-000000000000000000000000012"), Some(-12));
    assert_eq!(parse_i32("00000000000000000000000002147483647"), Some(2147483647));
}

#[test]
fn parses_up_to_the_limits() {
    assert_eq!(parse_i32("2147483647"), Some(i32::MAX));
    assert_eq!(parse_i32("+2147483647"), Some(i32::MAX));
    assert_eq!(parse_i32("-2147483648"), Some(i32::MIN));
}

#[test]
fn refuses_what_does_not_fit() {
    assert_eq!(parse_i32("2147483648"), None);
    assert_eq!(parse_i32("-2147483649"), None);
    assert_eq!(parse_i32("99999999999999999999999999999999"), None);
    assert_eq!(parse_i32("-99999999999999999999999999999999"), None);
    assert_eq!(parse_i32("21474836470"), None);
}

#[test]
fn refuses_what_is_no_number() {
    for text in ["", "+", "-", "+-1", "--1", "1-", "12a", "a12", " 7", "7 ", "1_000", "0x10", "1.5", "１２", "٣", "seven", "-+", "1+1"] {
        assert_eq!(parse_i32(text), None, "{:?}", text);
    }
}

#[test]
fn parses_as_the_standard_library_does() {
    let texts = [
        "", "0", "-", "+", "1", "-1", "+1", "10", "0010", "2147483646", "2147483647",
        "2147483648", "-2147483647", "-2147483648", "-2147483649", "4294967296", "abc", "1a",
        "a1", "+-3", "3 ", " 3", "००७", "1e3", "--", "++1", "000", "-000", "9223372036854775808",
    ];
    for text in texts {
        assert_eq!(parse_i32(text), text.parse::<i32>().ok(), "{:?}", text);
    }
}

#[test]
fn writes_decimal_notation() {
    assert_eq!(decimal(0), "0");
    assert_eq!(decimal(2), "2");
    assert_eq!(decimal(10), "10");
    assert_eq!(decimal(-1), "-1");
    assert_eq!(decimal(127), "127");
    assert_eq!(decimal(1000000), "1000000");
    assert_eq!(decimal(i32::MAX), "2147483647");
    assert_eq!(decimal(i32::MIN), "-2147483648");
}

#[test]
fn writes_as_the_standard_library_does() {
    let mut n: i32 = -70000;
    while n <= 70000 {
        assert_eq!(decimal(n), n.to_string());
        n += 7;
    }
}

#[test]
fn reading_what_was_written_gives_the_number_back() {
    for n in [0, 1, -1, 9, 10, -10, 99, 100, 12345, -98765, i32::MAX, i32::MIN, i32::MAX - 1, i32::MIN + 1] {
        assert_eq!(parse_i32(&decimal(n)), Some(n));
    }
}

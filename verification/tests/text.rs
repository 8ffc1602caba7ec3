use poz::{decimal_string, push_decimal, str_eq};

#[test]
fn decimal_of_small_numbers() {
    assert_eq!(decimal_string(0), "0");
    assert_eq!(decimal_string(7), "7");
    assert_eq!(decimal_string(9), "9");
    assert_eq!(decimal_string(10), "10");
    assert_eq!(decimal_string(500), "500");
    assert_eq!(decimal_string(1234567890), "1234567890");
}

#[test]
fn decimal_of_the_largest_number() {
    assert_eq!(decimal_string(u64::MAX), "18446744073709551615");
}

#[test]
fn decimal_agrees_with_the_standard_rendering() {
    let mut n: u64 = 1;
    for _ in 0..64 {
        assert_eq!(decimal_string(n), n.to_string());
        assert_eq!(decimal_string(n - 1), (n - 1).to_string());
        n = n.wrapping_mul(2);
    }
    for n in 0..2000u64 {
        assert_eq!(decimal_string(n), n.to_string());
    }
}

#[test]
fn push_decimal_keeps_what_was_there() {
    let mut out = String::from("<#");
    push_decimal(&mut out, 1001440920299905096);
    assert_eq!(out, "<#1001440920299905096");
    push_decimal(&mut out, 0);
    assert_eq!(out, "<#10014409202999050960");
}

#[test]
fn equal_strings_are_equal() {
    assert!(str_eq("", ""));
    assert!(str_eq("!ping", "!ping"));
    assert!(str_eq("テスト", "テスト"));
}

#[test]
fn different_strings_differ() {
    assert!(!str_eq("!ping", "!pinG"));
    assert!(!str_eq("!ping", "!pin"));
    assert!(!str_eq("!pin", "!ping"));
    assert!(!str_eq("", "!"));
    assert!(!str_eq("テスト", "テスド"));
    assert!(!str_eq("a\u{300}", "\u{e0}"));
}

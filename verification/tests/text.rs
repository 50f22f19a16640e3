use ocean::text::{i64_to_decimal, str_eq, u64_to_decimal};

#[test]
fn strings_compare_by_content() {
    assert!(str_eq("", ""));
    assert!(str_eq("ping", "ping"));
    assert!(!str_eq("ping", "pinG"));
    assert!(!str_eq("ping", "pin"));
    assert!(!str_eq("pin", "ping"));
    assert!(str_eq("мандела", "мандела"));
    assert!(!str_eq("мандела", "манделы"));
    assert!(!str_eq("e\u{301}", "\u{e9}"));
}

#[test]
fn unsigned_numbers_in_decimal() {
    assert_eq!(u64_to_decimal(0), "0");
    assert_eq!(u64_to_decimal(7), "7");
    assert_eq!(u64_to_decimal(10), "10");
    assert_eq!(u64_to_decimal(4096), "4096");
    assert_eq!(u64_to_decimal(1234567890), "1234567890");
    assert_eq!(u64_to_decimal(u64::MAX), "18446744073709551615");
}

#[test]
fn signed_numbers_in_decimal() {
    assert_eq!(i64_to_decimal(0), "0");
    assert_eq!(i64_to_decimal(-1), "-1");
    assert_eq!(i64_to_decimal(103), "103");
    assert_eq!(i64_to_decimal(-2147483648), "-2147483648");
    assert_eq!(i64_to_decimal(i64::MAX), "9223372036854775807");
    assert_eq!(i64_to_decimal(i64::MIN), "-9223372036854775808");
    for n in [-1000i64, -999, -10, -9, 9, 10, 99, 100, 65535] {
        assert_eq!(i64_to_decimal(n), n.to_string());
    }
}

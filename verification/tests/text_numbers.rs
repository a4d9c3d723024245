use conch::text::{parse_u64, u64_to_string};

#[test]
fn decimal_rendering() {
    assert_eq!(u64_to_string(0), "0");
    assert_eq!(u64_to_string(7), "7");
    assert_eq!(u64_to_string(10), "10");
    assert_eq!(u64_to_string(1234567890), "1234567890");
    assert_eq!(u64_to_string(u64::MAX), "18446744073709551615");
}

#[test]
fn parse_accepts_numerals() {
    assert_eq!(parse_u64("0"), Some(0));
    assert_eq!(parse_u64("500"), Some(500));
    assert_eq!(parse_u64("+7"), Some(7));
    assert_eq!(parse_u64("0823"), Some(823));
    assert_eq!(parse_u64("18446744073709551615"), Some(u64::MAX));
}

#[test]
fn parse_rejects_non_numerals() {
    assert_eq!(parse_u64(""), None);
    assert_eq!(parse_u64("+"), None);
    assert_eq!(parse_u64("-1"), None);
    assert_eq!(parse_u64("1x"), None);
    assert_eq!(parse_u64(" 1"), None);
    assert_eq!(parse_u64("12.5"), None);
}

#[test]
fn parse_rejects_overflow() {
    assert_eq!(parse_u64("18446744073709551616"), None);
    assert_eq!(parse_u64("99999999999999999999999"), None);
}

#[test]
fn decimal_round_trip() {
    for n in [0u64, 9, 10, 99, 100, 823, 123456789, u64::MAX] {
        assert_eq!(parse_u64(&u64_to_string(n)), Some(n));
    }
}

#[test]
fn parse_matches_std() {
    for s in ["0", "500", "+7", "0823", "", "+", "-1", "1x", "18446744073709551615",
        "18446744073709551616"] {
        assert_eq!(parse_u64(s), s.parse::<u64>().ok());
    }
}

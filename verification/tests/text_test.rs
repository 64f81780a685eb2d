use shop_core::text::{decimal_text, parse_i32, parse_i64, parse_u16};

#[test]
fn decimal_text_matches_display() {
    for n in [0i64, 7, 10, 99, 100, 12345, -1, -9, -10, -4096, i64::MAX, i64::MIN] {
        assert_eq!(decimal_text(n), n.to_string());
    }
}

#[test]
fn parse_i32_matches_from_str() {
    let cases = [
        "0", "99", "+5", "-5", "", "+", "-", "2147483647", "2147483648", "-2147483648",
        "-2147483649", " 1", "1 ", "1a", "0099", "+-1", "99999999999999999999999",
    ];
    for c in cases {
        assert_eq!(parse_i32(c), c.parse::<i32>().ok(), "input {c:?}");
    }
}

#[test]
fn parse_i64_matches_from_str() {
    let cases = [
        "500", "-500", "9223372036854775807", "9223372036854775808", "-9223372036854775808",
        "-9223372036854775809", "0.5", "1e3", "",
    ];
    for c in cases {
        assert_eq!(parse_i64(c), c.parse::<i64>().ok(), "input {c:?}");
    }
}

#[test]
fn parse_u16_matches_from_str() {
    let cases = ["8080", "0", "65535", "65536", "-0", "-1", "+80", "port"];
    for c in cases {
        assert_eq!(parse_u16(c), c.parse::<u16>().ok(), "input {c:?}");
    }
}

#[test]
fn decimal_text_parses_back() {
    for n in [0i64, 1, -1, 42, -42, i32::MAX as i64, i32::MIN as i64, i64::MAX, i64::MIN] {
        assert_eq!(parse_i64(&decimal_text(n)), Some(n));
    }
}

use turkish_times::numbers::{format_i64, format_u64, parse_i64};

#[test]
fn formats_like_display() {
    assert_eq!(format_i64(0), "0");
    assert_eq!(format_i64(42), "42");
    assert_eq!(format_i64(-7), "-7");
    assert_eq!(format_i64(1000), "1000");
    assert_eq!(format_i64(i64::MAX), i64::MAX.to_string());
    assert_eq!(format_i64(i64::MIN), i64::MIN.to_string());
    assert_eq!(format_u64(u64::MAX), u64::MAX.to_string());
    assert_eq!(format_u64(1725029869), "1725029869");
}

#[test]
fn parses_like_from_str() {
    assert_eq!(parse_i64("42"), Some(42));
    assert_eq!(parse_i64("+5"), Some(5));
    assert_eq!(parse_i64("-0"), Some(0));
    assert_eq!(parse_i64("0007"), Some(7));
    assert_eq!(parse_i64("-17"), Some(-17));
    assert_eq!(parse_i64("9223372036854775807"), Some(i64::MAX));
    assert_eq!(parse_i64("-9223372036854775808"), Some(i64::MIN));
}

#[test]
fn refuses_what_from_str_refuses() {
    for bad in ["", "-", "+", "12a", " 1", "1 ", "--1", "+-1", "1.5", "٣", "9223372036854775808",
        "-9223372036854775809", "99999999999999999999999999"] {
        assert_eq!(parse_i64(bad), None, "{bad:?}");
        assert_eq!(bad.parse::<i64>().ok(), None, "{bad:?}");
    }
}

#[test]
fn parse_after_format_round_trip() {
    for n in [0i64, 1, -1, 9, 10, -10, 123456789, i64::MAX, i64::MIN, i64::MIN + 1] {
        assert_eq!(parse_i64(&format_i64(n)), Some(n));
    }
}

use beacon_pulse::text::{contains_text, decimal_string, parse_unsigned, same_text};

#[test]
fn decimal_strings() {
    assert_eq!(decimal_string(0), "0");
    assert_eq!(decimal_string(7), "7");
    assert_eq!(decimal_string(100000), "100000");
    assert_eq!(decimal_string(u32::MAX), "4294967295");
}

#[test]
fn substring_search() {
    assert!(contains_text("google chrome", "chrome"));
    assert!(contains_text("abc", ""));
    assert!(!contains_text("", "a"));
    assert!(!contains_text("chrom", "chrome"));
    assert!(contains_text("aaab", "aab"));
    assert!(contains_text("über", "ber"));
}

#[test]
fn parses_like_str_parse() {
    assert_eq!(parse_unsigned("0", u32::MAX as u64), Some(0));
    assert_eq!(parse_unsigned("+45", u32::MAX as u64), Some(45));
    assert_eq!(parse_unsigned("007", u32::MAX as u64), Some(7));
    assert_eq!(parse_unsigned("4294967295", u32::MAX as u64), Some(u32::MAX as u64));
    assert_eq!(parse_unsigned("4294967296", u32::MAX as u64), None);
    assert_eq!(parse_unsigned("99999999999999999999", u32::MAX as u64), None);
    assert_eq!(parse_unsigned("", u32::MAX as u64), None);
    assert_eq!(parse_unsigned("+", u32::MAX as u64), None);
    assert_eq!(parse_unsigned("-1", u32::MAX as u64), None);
    assert_eq!(parse_unsigned("12a", u32::MAX as u64), None);
    assert_eq!(parse_unsigned(" 1", u32::MAX as u64), None);
    assert_eq!(parse_unsigned("65535", 65535), Some(65535));
    assert_eq!(parse_unsigned("65536", 65535), None);
    assert_eq!(parse_unsigned("18446744073709551615", u64::MAX), Some(u64::MAX));
    assert_eq!(parse_unsigned("18446744073709551616", u64::MAX), None);
    for s in ["1", "+2", "65535", "65536", "x", ""] {
        assert_eq!(parse_unsigned(s, 65535).map(|v| v as u16), s.parse::<u16>().ok());
    }
}

#[test]
fn text_equality() {
    assert!(same_text("--port", "--port"));
    assert!(!same_text("--port", "--por"));
    assert!(!same_text("-p", "-P"));
    assert!(same_text("", ""));
}

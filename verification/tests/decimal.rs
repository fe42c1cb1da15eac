use cucumber::decimal::{decimal, parse_id, read_integer};

#[test]
fn decimal_writes_numbers() {
    assert_eq!(decimal(0), "0");
    assert_eq!(decimal(7), "7");
    assert_eq!(decimal(10), "10");
    assert_eq!(decimal(4294967295), "4294967295");
    assert_eq!(decimal(u64::MAX), "18446744073709551615");
}

#[test]
fn parse_id_reads_numbers() {
    assert_eq!(parse_id("0"), Some(0));
    assert_eq!(parse_id("42"), Some(42));
    assert_eq!(parse_id("+42"), Some(42));
    assert_eq!(parse_id("0042"), Some(42));
    assert_eq!(parse_id("4294967295"), Some(4294967295));
    assert_eq!(parse_id("4294967296"), None);
    assert_eq!(parse_id("99999999999999999999999999"), None);
    assert_eq!(parse_id(""), None);
    assert_eq!(parse_id("+"), None);
    assert_eq!(parse_id("-1"), None);
    assert_eq!(parse_id("1a"), None);
    assert_eq!(parse_id("١"), None);
}

#[test]
fn parse_id_agrees_with_std() {
    for text in ["0", "+0", "-0", "12", " 12", "12 ", "1_000", "+", "", "4294967295", "4294967296"] {
        assert_eq!(parse_id(text), text.parse::<u32>().ok());
    }
}

#[test]
fn parse_id_reads_back_decimal() {
    for n in [0u32, 1, 9, 10, 99, 100, 65535, 4294967295] {
        assert_eq!(parse_id(&decimal(n as u64)), Some(n));
    }
}

#[test]
fn read_integer_handles_signs_and_bounds() {
    assert_eq!(read_integer("-128", true, -128, 127), Some(-128));
    assert_eq!(read_integer("128", true, -128, 127), None);
    assert_eq!(read_integer("-1", false, 0, 255), None);
    assert_eq!(read_integer("+255", false, 0, 255), Some(255));
    assert_eq!(read_integer("-", true, -128, 127), None);
    assert_eq!(read_integer("18446744073709551616", false, 0, 18446744073709551616), Some(18446744073709551616));
    assert_eq!(read_integer("18446744073709551617", false, 0, 18446744073709551616), None);
}

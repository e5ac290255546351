use onedrive_api::auth::space_separated_strings;
use onedrive_api::decimal::{parse_u64, to_decimal};
use onedrive_api::util::{ExpectRange, FileName};

#[test]
fn decimal_rendering() {
    assert_eq!(to_decimal(0), "0");
    assert_eq!(to_decimal(7), "7");
    assert_eq!(to_decimal(1234567890), "1234567890");
    assert_eq!(to_decimal(u64::MAX), "18446744073709551615");
}

#[test]
fn decimal_parsing() {
    assert_eq!(parse_u64("0"), Some(0));
    assert_eq!(parse_u64("+5"), Some(5));
    assert_eq!(parse_u64("007"), Some(7));
    assert_eq!(parse_u64("18446744073709551615"), Some(u64::MAX));
    assert_eq!(parse_u64("18446744073709551616"), None);
    assert_eq!(parse_u64(""), None);
    assert_eq!(parse_u64("+"), None);
    assert_eq!(parse_u64("-1"), None);
    assert_eq!(parse_u64("1a"), None);
    assert_eq!(parse_u64(" 1"), None);
}

#[test]
fn expect_range_parsing() {
    assert_eq!(ExpectRange::parse("0-25"), Some(ExpectRange { start: 0, end: Some(26) }));
    assert_eq!(ExpectRange::parse("26-"), Some(ExpectRange { start: 26, end: None }));
    assert_eq!(ExpectRange::parse("4-4"), Some(ExpectRange { start: 4, end: Some(5) }));
    assert_eq!(ExpectRange::parse("5-3"), None);
    assert_eq!(ExpectRange::parse("a-b"), None);
    assert_eq!(ExpectRange::parse("1-2-3"), None);
    assert_eq!(ExpectRange::parse("-5"), None);
    assert_eq!(ExpectRange::parse("12"), None);
    assert_eq!(ExpectRange::parse("0-18446744073709551615"), None);
}

#[test]
fn file_name_round_trip() {
    let name = FileName::new("report 2024.txt").unwrap();
    assert_eq!(name.as_str(), "report 2024.txt");
    assert_eq!(name.clone(), name);
    assert!(FileName::new("a\"b").is_none());
    assert!(FileName::new("a*b").is_none());
}

#[test]
fn scope_splitting() {
    assert_eq!(space_separated_strings("a b  c"), vec!["a", "b", "", "c"]);
    assert_eq!(space_separated_strings(""), vec![""]);
    assert_eq!(space_separated_strings("Files.Read"), vec!["Files.Read"]);
    assert_eq!(space_separated_strings("x "), vec!["x", ""]);
}

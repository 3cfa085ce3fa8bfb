use teikyou_mock::dates::format_date8;
use teikyou_mock::dates::parse_date8;

#[test]
fn test_derive_non_leap_span() {
    let dd = teikyou_mock::dates::derive("20230601").unwrap();
    assert_eq!(dd.regdate, "20220601");
    assert_eq!(dd.firstregdate, "20220601");
    assert_eq!(dd.expirydate, "20260531");
}

#[test]
fn test_derive_leap_spanning() {
    let dd = teikyou_mock::dates::derive("20240115").unwrap();
    assert_eq!(dd.regdate, "20230115");
    assert_eq!(dd.firstregdate, "20230115");
    assert_eq!(dd.expirydate, "20270114");
}

#[test]
fn test_derive_back_across_leap_day() {
    let dd = teikyou_mock::dates::derive("20250101").unwrap();
    assert_eq!(dd.regdate, "20240102");
    assert_eq!(dd.expirydate, "20280101");
}

#[test]
fn test_derive_rejects_malformed() {
    assert!(teikyou_mock::dates::derive("").is_none());
    assert!(teikyou_mock::dates::derive("2024011").is_none());
    assert!(teikyou_mock::dates::derive("202401155").is_none());
    assert!(teikyou_mock::dates::derive("2024-1-1").is_none());
    assert!(teikyou_mock::dates::derive("2024011a").is_none());
    assert!(teikyou_mock::dates::derive("20240132").is_none());
    assert!(teikyou_mock::dates::derive("20241301").is_none());
    assert!(teikyou_mock::dates::derive("20230229").is_none());
}

#[test]
fn test_derive_accepts_leap_day() {
    let dd = teikyou_mock::dates::derive("20240229").unwrap();
    assert_eq!(dd.regdate, "20230301");
    assert_eq!(dd.expirydate, "20270228");
}

#[test]
fn test_parse_and_format() {
    assert_eq!(parse_date8("20240115"), Some((2024, 1, 15)));
    assert_eq!(parse_date8("00010203"), Some((1, 2, 3)));
    assert_eq!(parse_date8("2024011"), None);
    assert_eq!(parse_date8("2024011a"), None);
    assert_eq!(format_date8(2024, 1, 15), "20240115");
    assert_eq!(format_date8(1, 2, 3), "00010203");
}

use teikyou_mock::error_type::get_error_info;
use teikyou_mock::error_type::is_error;
use teikyou_mock::error_type::read_error_codes;
use teikyou_mock::error_type::ErrorCode;

#[test]
fn test_is_error() {
    assert_eq!(is_error("ERR-1001".to_string()), true);
    assert_eq!(is_error("1234567890".to_string()), false);
}

#[test]
fn test_get_error_info() {
    let errinfo = get_error_info("ERR-1001".to_string());
    assert_eq!(errinfo.errid, "1001");
    assert_eq!(errinfo.errmsg, "該当する車両がありません");
}

#[test]
fn test_is_error_short_and_lowercase() {
    assert_eq!(is_error("ER".to_string()), false);
    assert_eq!(is_error("err-1001".to_string()), false);
    assert_eq!(is_error("ERR".to_string()), true);
}

#[test]
fn test_get_error_info_unknown_id() {
    let errinfo = get_error_info("ERR-9999".to_string());
    assert_eq!(errinfo.errid, "2010");
    assert_eq!(errinfo.errmsg, "システムエラーが発生しました。");
}

#[test]
fn test_get_error_info_no_hyphen() {
    let errinfo = get_error_info("ERRX".to_string());
    assert_eq!(errinfo.errid, "2010");
    assert_eq!(errinfo.errmsg, "システムエラーが発生しました。");
}

#[test]
fn test_get_error_info_takes_second_segment() {
    let errinfo = get_error_info("ERR-1002-extra".to_string());
    assert_eq!(errinfo.errid, "1002");
    assert_eq!(errinfo.errmsg, "検索条件が不正です");
}

#[test]
fn test_read_error_codes_contents() {
    let codes: Vec<ErrorCode> = read_error_codes();
    assert_eq!(codes.len(), 3);
    assert_eq!(codes[0].errid, "1001");
    assert_eq!(codes[0].errmsg, "該当する車両がありません");
    assert!(codes.iter().all(|c| c.errid != "2010"));
}

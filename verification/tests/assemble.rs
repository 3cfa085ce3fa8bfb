use teikyou_mock::airis::assemble;
use teikyou_mock::airis::echo_request;
use teikyou_mock::airis::TeikyouUniqueSearchServlet;
use teikyou_mock::xml::Xml;

fn req(searchdate: &str, chassisno: &str, searchid: &str, seqno: &str) -> TeikyouUniqueSearchServlet {
    TeikyouUniqueSearchServlet {
        searchdate: searchdate.to_string(),
        searchid: searchid.to_string(),
        privacyflg: "0".to_string(),
        seqno: seqno.to_string(),
        retryflg: "0".to_string(),
        groupid: "G1".to_string(),
        regno: "R1".to_string(),
        chassisno: chassisno.to_string(),
        version: "1".to_string(),
        userid: "user".to_string(),
        pw: "pw".to_string(),
        keyword: "kw".to_string(),
    }
}

#[test]
fn test_success_scenario() {
    let r = assemble(&req("20240101", "12-34567890", "S1", "1")).unwrap();
    assert_eq!(r.common.orgname, "test");
    assert_eq!(r.common.version, "1.0.0");
    assert_eq!(r.common.searchdate, "20240101");
    assert_eq!(r.common.searchid, "S1");
    assert_eq!(r.common.seqno, "1");
    assert_eq!(r.common.result, "0");
    assert_eq!(r.common.num, "1");
    assert!(r.errinfo.is_none());
    let data = r.data.expect("success branch carries data");
    assert_eq!(data.bodytype.cd, 12);
    assert_eq!(data.regdate, "20230101");
    assert_eq!(data.firstregdate, "20230101");
    assert_eq!(data.expirydate, "20261231");
    assert_eq!(data.purpose, "事業用");
    assert_eq!(data.carid.as_deref(), Some("12-34567890"));
    assert_eq!(data.electro_carins, "1");
    assert!((10000..30000).contains(&data.loadage.value_1));
    assert!((10000..30000).contains(&data.loadage.value_2));
    assert!((10000..30000).contains(&data.weight.value));
    assert!((10000..30000).contains(&data.grossweight.value_1));
    assert!((10000..30000).contains(&data.grossweight.value_2));
}

#[test]
fn test_error_scenario_known_id() {
    let r = assemble(&req("20240101", "ERR-1001", "S1", "1")).unwrap();
    assert_eq!(r.common.result, "1");
    assert_eq!(r.common.num, "0");
    assert!(r.data.is_none());
    let ei = r.errinfo.expect("error branch carries errinfo");
    assert_eq!(ei.errid, "1001");
    assert_eq!(ei.errmsg, "該当する車両がありません");
}

#[test]
fn test_error_scenario_unknown_id() {
    let r = assemble(&req("20240101", "ERR-9999", "S1", "1")).unwrap();
    assert_eq!(r.common.result, "1");
    assert!(r.data.is_none());
    let ei = r.errinfo.expect("error branch carries errinfo");
    assert_eq!(ei.errid, "2010");
    assert_eq!(ei.errmsg, "システムエラーが発生しました。");
}

#[test]
fn test_exactly_one_branch_is_present() {
    for chassisno in ["12-1", "zz", "", "ERR", "ERR-1001", "ERRX-1", "その他"] {
        let r = assemble(&req("20240601", chassisno, "S", "1")).unwrap();
        let is_err = chassisno.starts_with("ERR");
        assert_eq!(r.data.is_some(), !is_err, "data branch for {:?}", chassisno);
        assert_eq!(r.errinfo.is_some(), is_err, "errinfo branch for {:?}", chassisno);
        assert_eq!(r.common.result, if is_err { "1" } else { "0" });
        assert_eq!(r.common.num, if is_err { "0" } else { "1" });
    }
}

#[test]
fn test_malformed_search_date_fails_request() {
    assert!(assemble(&req("2024011", "12-1", "S", "1")).is_none());
    assert!(assemble(&req("20240230", "12-1", "S", "1")).is_none());
    assert!(assemble(&req("abcdefgh", "12-1", "S", "1")).is_none());
    assert!(assemble(&req("", "ERR-1001", "S", "1")).is_none());
}

#[test]
fn test_echo_request_keeps_every_field() {
    let original = req("20240101", "12-34567890", "S1", "7");
    let echoed = echo_request(&original);
    assert_eq!(echoed.searchdate, original.searchdate);
    assert_eq!(echoed.searchid, original.searchid);
    assert_eq!(echoed.privacyflg, original.privacyflg);
    assert_eq!(echoed.seqno, original.seqno);
    assert_eq!(echoed.retryflg, original.retryflg);
    assert_eq!(echoed.groupid, original.groupid);
    assert_eq!(echoed.regno, original.regno);
    assert_eq!(echoed.chassisno, original.chassisno);
    assert_eq!(echoed.version, original.version);
    assert_eq!(echoed.userid, original.userid);
    assert_eq!(echoed.pw, original.pw);
    assert_eq!(echoed.keyword, original.keyword);
}

#[test]
fn test_xml_wrapper_carries_value() {
    let wrapped = Xml("payload".to_string());
    assert_eq!(wrapped.0, "payload");
}

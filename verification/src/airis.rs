//! The response assembler: turns a decoded search request into the response
//! record — an envelope plus exactly one of a data record or an error
//! detail — that the wire layer encodes to XML.

use vstd::prelude::*;

use crate::body_type::BodyType;
use crate::body_type::first_code_match;
use crate::body_type::get_body_type;
use crate::body_type::lookup_prefix;
use crate::dates::derived_dates;
use crate::dates::parse_ymd8;
use crate::dates::valid_ymd;
use crate::error_type::AirisErrInfo;
use crate::error_type::classify_model;
use crate::error_type::error_table;
use crate::error_type::get_error_info;
use crate::error_type::is_error;
use crate::error_type::spec_is_error;
use crate::rng::random_below;
use crate::shape_code::shape_table;

verus! {

/// The decoded search request, as the wire layer hands it over.
pub struct TeikyouUniqueSearchServlet {
    /// The as-of date of the search, as `YYYYMMDD`.
    pub searchdate: String,
    /// The caller's search id, echoed back.
    pub searchid: String,
    /// Pass-through field.
    pub privacyflg: String,
    /// The caller's sequence number, echoed back.
    pub seqno: String,
    /// Pass-through field.
    pub retryflg: String,
    /// Pass-through field.
    pub groupid: String,
    /// Pass-through field.
    pub regno: String,
    /// The chassis number that drives the lookup.
    pub chassisno: String,
    /// Pass-through field.
    pub version: String,
    /// Pass-through field.
    pub userid: String,
    /// Pass-through field.
    pub pw: String,
    /// Pass-through field.
    pub keyword: String,
}

/// The envelope fields shared by the success and the error branch.
pub struct AirisCommon {
    /// The fixed organisation name.
    pub orgname: String,
    /// The fixed protocol version.
    pub version: String,
    /// The echoed search date.
    pub searchdate: String,
    /// The echoed search id.
    pub searchid: String,
    /// The echoed sequence number.
    pub seqno: String,
    /// `"0"` on success, `"1"` on a domain error.
    pub result: String,
    /// The record count: `"1"` on success, `"0"` on a domain error.
    pub num: String,
}

/// The two synthetic load-age values of a successful response.
pub struct LoadAgeType {
    /// The first synthetic value.
    pub value_1: u32,
    /// The second synthetic value.
    pub value_2: u32,
}

/// The synthetic weight value of a successful response.
pub struct WeightType {
    /// The synthetic value.
    pub value: u32,
}

/// The two synthetic gross-weight values of a successful response.
pub struct GrossWeightType {
    /// The first synthetic value.
    pub value_1: u32,
    /// The second synthetic value.
    pub value_2: u32,
}

/// The data record of a successful response.
pub struct AirisData {
    /// The registration date, 365 days before the search date.
    pub regdate: String,
    /// The first registration date, equal to the registration date.
    pub firstregdate: String,
    /// The fixed business-use purpose label.
    pub purpose: String,
    /// The resolved body type.
    pub bodytype: BodyType,
    /// Synthetic load-age values.
    pub loadage: LoadAgeType,
    /// A synthetic weight value.
    pub weight: WeightType,
    /// Synthetic gross-weight values.
    pub grossweight: GrossWeightType,
    /// The expiry date, 1095 days after the search date.
    pub expirydate: String,
    /// The echoed chassis number.
    pub carid: Option<String>,
    /// The fixed electronic-insurance flag.
    pub electro_carins: String,
}

/// The top-level response: an envelope plus exactly one of `data` and
/// `errinfo`.
pub struct AirisResponse {
    /// The envelope fields.
    pub common: AirisCommon,
    /// The data record, present exactly on the success branch.
    pub data: Option<AirisData>,
    /// The error detail, present exactly on the error branch.
    pub errinfo: Option<AirisErrInfo>,
}

/// Whether `v` lies in the synthetic filler range for load age and weights.
pub open spec fn synthetic_in_range(v: u32) -> bool {
    10000 <= v < 30000
}

/// The envelope of a response to `req`, with the given branch markers.
pub open spec fn common_ok(
    c: AirisCommon,
    req: TeikyouUniqueSearchServlet,
    result: Seq<char>,
    num: Seq<char>,
) -> bool {
    &&& c.orgname@ == "test"@
    &&& c.version@ == "1.0.0"@
    &&& c.searchdate@ == req.searchdate@
    &&& c.searchid@ == req.searchid@
    &&& c.seqno@ == req.seqno@
    &&& c.result@ == result
    &&& c.num@ == num
}

/// The resolved body type is a row of the bundled catalog, and the first
/// row matching the chassis number's lookup prefix when there is one.
pub open spec fn bodytype_ok(b: BodyType, chassisno: Seq<char>) -> bool {
    &&& match first_code_match(shape_table(), lookup_prefix(chassisno)) {
        Some(i) => b.cd == shape_table()[i].0 && b.name@ == shape_table()[i].1,
        None => true,
    }
    &&& exists|i: int|
        0 <= i < shape_table().len() && b.cd == (#[trigger] shape_table()[i]).0 && b.name@
            == shape_table()[i].1
}

/// The data record of a successful response to `req`, with the derived
/// registration date `reg` and expiry date `exp`.
pub open spec fn data_ok(
    d: AirisData,
    req: TeikyouUniqueSearchServlet,
    reg: Seq<char>,
    exp: Seq<char>,
) -> bool {
    &&& d.regdate@ == reg
    &&& d.firstregdate@ == reg
    &&& d.purpose@ == "事業用"@
    &&& bodytype_ok(d.bodytype, req.chassisno@)
    &&& synthetic_in_range(d.loadage.value_1)
    &&& synthetic_in_range(d.loadage.value_2)
    &&& synthetic_in_range(d.weight.value)
    &&& synthetic_in_range(d.grossweight.value_1)
    &&& synthetic_in_range(d.grossweight.value_2)
    &&& d.expirydate@ == exp
    &&& d.carid matches Some(cid) && cid@ == req.chassisno@
    &&& d.electro_carins@ == "1"@
}

/// A synthetic filler value, drawn uniformly from the fixed range.
fn synthetic_value() -> (r: u32)
    ensures
        synthetic_in_range(r),
{
    let v = random_below(10000, 30000);
    v as u32
}

/// The envelope for a response to `req`, with the given branch markers.
fn make_common(req: &TeikyouUniqueSearchServlet, result: &str, num: &str) -> (c: AirisCommon)
    ensures
        common_ok(c, *req, result@, num@),
{
    AirisCommon {
        orgname: "test".to_owned(),
        version: "1.0.0".to_owned(),
        searchdate: req.searchdate.clone(),
        searchid: req.searchid.clone(),
        seqno: req.seqno.clone(),
        result: result.to_owned(),
        num: num.to_owned(),
    }
}

/// What `assemble` guarantees of its result: `None` exactly when no dates
/// can be derived from the search date; otherwise the branch on the error
/// classification, with the envelope markers, the error detail or the data
/// record all pinned down.
pub open spec fn assemble_post(req: TeikyouUniqueSearchServlet, r: Option<AirisResponse>) -> bool {
    match r {
        None => derived_dates(req.searchdate@) is None,
        Some(resp) => {
            &&& derived_dates(req.searchdate@) matches Some(dd)
            &&& (resp.data is Some <==> !spec_is_error(req.chassisno@))
            &&& (resp.errinfo is Some <==> spec_is_error(req.chassisno@))
            &&& if spec_is_error(req.chassisno@) {
                &&& common_ok(resp.common, req, "1"@, "0"@)
                &&& resp.errinfo matches Some(ei) && ei.errid@ == classify_model(
                    req.chassisno@,
                    error_table(),
                ).0 && ei.errmsg@ == classify_model(req.chassisno@, error_table()).1
            } else {
                &&& common_ok(resp.common, req, "0"@, "1"@)
                &&& resp.data matches Some(d) && data_ok(
                    d,
                    req,
                    derived_dates(req.searchdate@)->Some_0.0,
                    derived_dates(req.searchdate@)->Some_0.1,
                )
            }
        },
    }
}

/// In an assembled response exactly one of `data` and `errinfo` is present,
/// never both and never neither, and the envelope markers mirror the branch:
/// `result` is `"0"` and `num` is `"1"` exactly when `data` is present, and
/// `result` is `"1"` and `num` is `"0"` exactly when `errinfo` is present.
pub proof fn lemma_assemble_branch_invariant(
    req: TeikyouUniqueSearchServlet,
    r: Option<AirisResponse>,
)
    requires
        assemble_post(req, r),
        r is Some,
    ensures
        ({
            let resp = r->Some_0;
            &&& (resp.data is Some <==> resp.errinfo is None)
            &&& (resp.common.result@ == "0"@ <==> resp.data is Some)
            &&& (resp.common.result@ == "1"@ <==> resp.errinfo is Some)
            &&& (resp.common.num@ == "1"@ <==> resp.data is Some)
            &&& (resp.common.num@ == "0"@ <==> resp.errinfo is Some)
        }),
{
    reveal_strlit("0");
    reveal_strlit("1");
    assert("0"@[0] == '0' && "1"@[0] == '1');
}

/// Assembles the response for a request. The dates are derived from the
/// search date first; a search date that is not a calendar day written as
/// eight digits (or whose shifted years cannot be written as four digits)
/// fails the whole request with `None`. Otherwise the chassis number picks
/// the branch: an `"ERR"` prefix yields the error envelope and the
/// classified error detail, anything else the success envelope and a data
/// record — exactly one of `data` and `errinfo` is present.
pub fn assemble(req: &TeikyouUniqueSearchServlet) -> (r: Option<AirisResponse>)
    ensures
        assemble_post(*req, r),
        (parse_ymd8(req.searchdate@) matches Some((y, m, d)) && valid_ymd(y, m, d) && 6 <= y
            <= 9993) ==> r is Some,
{
    let derived = crate::dates::derive(req.searchdate.as_str());
    match derived {
        None => None,
        Some(dd) => {
            if is_error(req.chassisno.clone()) {
                let errinfo = get_error_info(req.chassisno.clone());
                Some(
                    AirisResponse {
                        common: make_common(req, "1", "0"),
                        data: None,
                        errinfo: Some(errinfo),
                    },
                )
            } else {
                let bodytype = get_body_type(req.chassisno.clone());
                Some(
                    AirisResponse {
                        common: make_common(req, "0", "1"),
                        data: Some(
                            AirisData {
                                regdate: dd.regdate,
                                firstregdate: dd.firstregdate,
                                purpose: "事業用".to_owned(),
                                bodytype,
                                loadage: LoadAgeType {
                                    value_1: synthetic_value(),
                                    value_2: synthetic_value(),
                                },
                                weight: WeightType { value: synthetic_value() },
                                grossweight: GrossWeightType {
                                    value_1: synthetic_value(),
                                    value_2: synthetic_value(),
                                },
                                expirydate: dd.expirydate,
                                carid: Some(req.chassisno.clone()),
                                electro_carins: "1".to_owned(),
                            },
                        ),
                        errinfo: None,
                    },
                )
            }
        },
    }
}

/// The echo endpoint's record: every field of the request, unchanged.
pub fn echo_request(req: &TeikyouUniqueSearchServlet) -> (r: TeikyouUniqueSearchServlet)
    ensures
        r.searchdate@ == req.searchdate@,
        r.searchid@ == req.searchid@,
        r.privacyflg@ == req.privacyflg@,
        r.seqno@ == req.seqno@,
        r.retryflg@ == req.retryflg@,
        r.groupid@ == req.groupid@,
        r.regno@ == req.regno@,
        r.chassisno@ == req.chassisno@,
        r.version@ == req.version@,
        r.userid@ == req.userid@,
        r.pw@ == req.pw@,
        r.keyword@ == req.keyword@,
{
    TeikyouUniqueSearchServlet {
        searchdate: req.searchdate.clone(),
        searchid: req.searchid.clone(),
        privacyflg: req.privacyflg.clone(),
        seqno: req.seqno.clone(),
        retryflg: req.retryflg.clone(),
        groupid: req.groupid.clone(),
        regno: req.regno.clone(),
        chassisno: req.chassisno.clone(),
        version: req.version.clone(),
        userid: req.userid.clone(),
        pw: req.pw.clone(),
        keyword: req.keyword.clone(),
    }
}

} // verus!

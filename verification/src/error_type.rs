//! The error classifier: decides whether a request is an error case and
//! resolves the error detail against the immutable error-code catalog,
//! falling back to a fixed generic error when the id is unknown or the
//! input is malformed.

use vstd::prelude::*;

use crate::text::lemma_first_hyphen;
use crate::text::second_segment;
use crate::text::str_eq;
use crate::text::find_hyphen;

verus! {

/// The error detail a response carries on the error branch.
pub struct AirisErrInfo {
    /// The error id.
    pub errid: String,
    /// The error message.
    pub errmsg: String,
}

/// One entry of the error-code catalog.
pub struct ErrorCode {
    /// The error id looked up from the chassis number.
    pub errid: String,
    /// The message for the id.
    pub errmsg: String,
}

/// The id and the message of each catalog entry, in load order.
pub open spec fn err_rows(entries: Seq<ErrorCode>) -> Seq<(Seq<char>, Seq<char>)> {
    entries.map_values(|e: ErrorCode| (e.errid@, e.errmsg@))
}

/// The bundled error-code catalog contents.
pub open spec fn error_table() -> Seq<(Seq<char>, Seq<char>)> {
    seq![
        ("1001"@, "該当する車両がありません"@),
        ("1002"@, "検索条件が不正です"@),
        ("2001"@, "システムメンテナンス中です"@),
    ]
}

/// The fixed fallback error: a generic system error, outside the catalog.
pub open spec fn fallback_err() -> (Seq<char>, Seq<char>) {
    ("2010"@, "システムエラーが発生しました。"@)
}

/// The bundled error-code catalog, identical on every call.
pub fn read_error_codes() -> (r: Vec<ErrorCode>)
    ensures
        err_rows(r@) == error_table(),
{
    let mut v: Vec<ErrorCode> = Vec::new();
    v.push(ErrorCode { errid: "1001".to_owned(), errmsg: "該当する車両がありません".to_owned() });
    v.push(ErrorCode { errid: "1002".to_owned(), errmsg: "検索条件が不正です".to_owned() });
    v.push(
        ErrorCode { errid: "2001".to_owned(), errmsg: "システムメンテナンス中です".to_owned() },
    );
    proof {
        assert(err_rows(v@) =~= error_table());
    }
    v
}

/// Whether the string begins with the characters `E`, `R`, `R`.
pub open spec fn spec_is_error(s: Seq<char>) -> bool {
    s.len() >= 3 && s[0] == 'E' && s[1] == 'R' && s[2] == 'R'
}

/// `spec_is_error` holds exactly when the string starts with `"ERR"`.
pub proof fn lemma_is_error_iff_err_prefix(s: Seq<char>)
    ensures
        spec_is_error(s) <==> s.len() >= 3 && s.subrange(0, 3) == "ERR"@,
{
    reveal_strlit("ERR");
    if s.len() >= 3 {
        if spec_is_error(s) {
            assert(s.subrange(0, 3) =~= "ERR"@);
        }
        if s.subrange(0, 3) == "ERR"@ {
            assert(s[0] == s.subrange(0, 3)[0]);
            assert(s[1] == s.subrange(0, 3)[1]);
            assert(s[2] == s.subrange(0, 3)[2]);
        }
    }
}

/// Whether the chassis number triggers the error branch: it starts with `"ERR"`.
pub fn is_error(chassisno: String) -> (r: bool)
    ensures
        r == spec_is_error(chassisno@),
{
    let s = chassisno.as_str();
    if s.unicode_len() < 3 {
        return false;
    }
    s.get_char(0) == 'E' && s.get_char(1) == 'R' && s.get_char(2) == 'R'
}

/// The index of the first catalog row whose id is `id`, if any.
pub open spec fn first_err_match(table: Seq<(Seq<char>, Seq<char>)>, id: Seq<char>) -> Option<int>
    decreases table.len(),
{
    if table.len() == 0 {
        None
    } else if table[0].0 == id {
        Some(0int)
    } else {
        match first_err_match(table.drop_first(), id) {
            None => None,
            Some(i) => Some(i + 1),
        }
    }
}

/// `first_err_match` points at the first row whose id is `id`: the row there
/// carries `id` and no earlier row does; `None` means no row carries it.
pub proof fn lemma_first_err_match(table: Seq<(Seq<char>, Seq<char>)>, id: Seq<char>)
    ensures
        match first_err_match(table, id) {
            Some(i) => {
                &&& 0 <= i < table.len()
                &&& table[i].0 == id
                &&& forall|j: int| 0 <= j < i ==> (#[trigger] table[j]).0 != id
            },
            None => forall|j: int| 0 <= j < table.len() ==> (#[trigger] table[j]).0 != id,
        },
    decreases table.len(),
{
    if table.len() > 0 && table[0].0 != id {
        lemma_first_err_match(table.drop_first(), id);
        assert(forall|j: int|
            1 <= j < table.len() ==> #[trigger] table[j] == table.drop_first()[j - 1]);
    }
}

/// The error detail for a chassis number against a catalog: the row of the
/// id between the first and second hyphen, or the fixed fallback when there
/// is no such id or no such row.
pub open spec fn classify_model(s: Seq<char>, table: Seq<(Seq<char>, Seq<char>)>) -> (
    Seq<char>,
    Seq<char>,
) {
    match second_segment(s) {
        None => fallback_err(),
        Some(id) => match first_err_match(table, id) {
            Some(i) => table[i],
            None => fallback_err(),
        },
    }
}

/// A chassis number whose id between the first and second hyphen is carried
/// by no catalog row classifies to the fixed fallback error, as does one
/// with no hyphen at all.
pub proof fn lemma_classify_unknown_id(s: Seq<char>, table: Seq<(Seq<char>, Seq<char>)>)
    requires
        match second_segment(s) {
            None => true,
            Some(id) => forall|j: int| 0 <= j < table.len() ==> (#[trigger] table[j]).0 != id,
        },
    ensures
        classify_model(s, table) == fallback_err(),
{
    match second_segment(s) {
        None => {},
        Some(id) => {
            lemma_first_err_match(table, id);
            match first_err_match(table, id) {
                None => {},
                Some(i) => {
                    assert(table[i].0 != id);
                },
            }
        },
    }
}

/// The fixed fallback error detail.
fn fallback_err_info() -> (r: AirisErrInfo)
    ensures
        r.errid@ == fallback_err().0,
        r.errmsg@ == fallback_err().1,
{
    AirisErrInfo { errid: "2010".to_owned(), errmsg: "システムエラーが発生しました。".to_owned() }
}

/// Resolves the error detail for `chassisno` against `error_codes`: looks up
/// the segment between the first and second hyphen; an unknown id or a
/// malformed input falls back to the fixed generic error.
pub fn classify(chassisno: &str, error_codes: &Vec<ErrorCode>) -> (r: AirisErrInfo)
    ensures
        ({
            let row = classify_model(chassisno@, err_rows(error_codes@));
            r.errid@ == row.0 && r.errmsg@ == row.1
        }),
{
    let n = chassisno.unicode_len();
    let h = find_hyphen(chassisno);
    if h == n {
        return fallback_err_info();
    }
    proof {
        lemma_first_hyphen(chassisno@);
    }
    let rest = chassisno.substring_char(h + 1, n);
    proof {
        lemma_first_hyphen(rest@);
    }
    let h2 = find_hyphen(rest);
    let id = rest.substring_char(0, h2);
    proof {
        assert(second_segment(chassisno@) == Some(id@));
    }
    let ghost table = err_rows(error_codes@);
    proof {
        lemma_first_err_match(table, id@);
    }
    let mut k: usize = 0;
    while k < error_codes.len()
        invariant
            0 <= k <= error_codes@.len(),
            table == err_rows(error_codes@),
            second_segment(chassisno@) == Some(id@),
            forall|j: int| 0 <= j < k ==> (#[trigger] table[j]).0 != id@,
            match first_err_match(table, id@) {
                Some(i) => 0 <= i < table.len() && table[i].0 == id@ && forall|j: int|
                    0 <= j < i ==> (#[trigger] table[j]).0 != id@,
                None => forall|j: int| 0 <= j < table.len() ==> (#[trigger] table[j]).0 != id@,
            },
        decreases error_codes@.len() - k,
    {
        let entry = &error_codes[k];
        if str_eq(entry.errid.as_str(), id) {
            proof {
                assert(table[k as int].0 == id@);
                assert(first_err_match(table, id@) == Some(k as int));
            }
            return AirisErrInfo { errid: entry.errid.clone(), errmsg: entry.errmsg.clone() };
        }
        proof {
            assert(table[k as int].0 != id@);
        }
        k += 1;
    }
    proof {
        assert(first_err_match(table, id@) is None);
    }
    fallback_err_info()
}

/// Resolves the error detail for `chassisno` against the bundled error-code
/// catalog.
pub fn get_error_info(chassisno: String) -> (r: AirisErrInfo)
    ensures
        ({
            let row = classify_model(chassisno@, error_table());
            r.errid@ == row.0 && r.errmsg@ == row.1
        }),
{
    let error_codes = read_error_codes();
    classify(chassisno.as_str(), &error_codes)
}

} // verus!

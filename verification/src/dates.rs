//! Date derivation: parsing and formatting of `YYYYMMDD` strings is verified
//! here; shifting a calendar day by a fixed number of days is done by chrono
//! behind a trusted wrapper.

use vstd::prelude::*;

use crate::text::char_digit;
use crate::text::digit_char;
use crate::text::digit_val;
use crate::text::digit_str;
use crate::text::is_digit_char;

verus! {

/// Whether `y` is a leap year of the proleptic Gregorian calendar.
pub open spec fn is_leap_year(y: int) -> bool {
    (y % 4 == 0 && y % 100 != 0) || y % 400 == 0
}

/// The number of days of month `m` of year `y`.
pub open spec fn days_in_month(y: int, m: int) -> int {
    if m == 2 {
        if is_leap_year(y) {
            29
        } else {
            28
        }
    } else if m == 4 || m == 6 || m == 9 || m == 11 {
        30
    } else {
        31
    }
}

/// Whether `(y, m, d)` is a day of the proleptic Gregorian calendar.
pub open spec fn valid_ymd(y: int, m: int, d: int) -> bool {
    &&& 1 <= m <= 12
    &&& 1 <= d <= days_in_month(y, m)
}

/// The calendar day `delta` days after `(y, m, d)`, or `None` when the input
/// is no calendar day or the result cannot be represented. This is what
/// chrono computes; it is named here, never written out.
pub uninterp spec fn calendar_shift(y: int, m: int, d: int, delta: int) -> Option<(int, int, int)>;

/// Relies on chrono's `NaiveDate::from_ymd_opt`, `NaiveDate::checked_add_signed`,
/// `TimeDelta::days` and the `year`/`month`/`day` accessors. `from_ymd_opt`
/// returns `None` exactly on invalid calendar days and on years outside
/// chrono's range (about ±262000, far beyond four-digit years);
/// `checked_add_signed` returns `None` only when the shifted day falls
/// outside that range, which a shift of at most 2000 days from a four-digit
/// year cannot reach; the accessors return the calendar fields, months in
/// 1..=12 and days in 1..=31. A shift of at most 2000 days moves the year
/// by at most 6.
#[verifier::external_body]
fn shift_ymd(y: u32, m: u32, d: u32, delta: i64) -> (r: Option<(i32, u32, u32)>)
    requires
        y <= 9999,
        m <= 99,
        d <= 99,
        -2000 <= delta <= 2000,
    ensures
        match r {
            Some(t) => {
                &&& calendar_shift(y as int, m as int, d as int, delta as int) == Some(
                    (t.0 as int, t.1 as int, t.2 as int),
                )
                &&& 1 <= t.1 <= 12
                &&& 1 <= t.2 <= 31
                &&& y as int - 6 <= t.0 as int <= y as int + 6
            },
            None => calendar_shift(y as int, m as int, d as int, delta as int) is None,
        },
        valid_ymd(y as int, m as int, d as int) ==> r is Some,
{
    let date = chrono::NaiveDate::from_ymd_opt(y as i32, m, d)?;
    let shifted = date.checked_add_signed(chrono::TimeDelta::days(delta))?;
    Some((
        chrono::Datelike::year(&shifted),
        chrono::Datelike::month(&shifted),
        chrono::Datelike::day(&shifted),
    ))
}

/// The year, month and day read from an 8-digit `YYYYMMDD` string, or `None`
/// when the string is not exactly 8 decimal digits.
pub open spec fn parse_ymd8(s: Seq<char>) -> Option<(int, int, int)> {
    if s.len() == 8 && (forall|i: int| 0 <= i < 8 ==> is_digit_char(s[i])) {
        Some(
            (
                digit_val(s[0]) * 1000 + digit_val(s[1]) * 100 + digit_val(s[2]) * 10 + digit_val(
                    s[3],
                ),
                digit_val(s[4]) * 10 + digit_val(s[5]),
                digit_val(s[6]) * 10 + digit_val(s[7]),
            ),
        )
    } else {
        None
    }
}

/// The `YYYYMMDD` writing of `(y, m, d)`, each field zero-padded.
pub open spec fn format_ymd8(y: int, m: int, d: int) -> Seq<char> {
    seq![
        digit_char(y / 1000 % 10),
        digit_char(y / 100 % 10),
        digit_char(y / 10 % 10),
        digit_char(y % 10),
        digit_char(m / 10 % 10),
        digit_char(m % 10),
        digit_char(d / 10 % 10),
        digit_char(d % 10),
    ]
}

/// A four-digit number yields its digits back under division and remainder.
proof fn lemma_dec_digits4(y: int, a: int, b: int, c: int, e: int)
    by (nonlinear_arith)
    requires
        y == a * 1000 + b * 100 + c * 10 + e,
        0 <= a <= 9,
        0 <= b <= 9,
        0 <= c <= 9,
        0 <= e <= 9,
    ensures
        y / 1000 % 10 == a,
        y / 100 % 10 == b,
        y / 10 % 10 == c,
        y % 10 == e,
{
}

/// A two-digit number yields its digits back under division and remainder.
proof fn lemma_dec_digits2(m: int, a: int, b: int)
    by (nonlinear_arith)
    requires
        m == a * 10 + b,
        0 <= a <= 9,
        0 <= b <= 9,
    ensures
        m / 10 % 10 == a,
        m % 10 == b,
{
}

/// Formatting the fields read from an 8-digit string gives the string back:
/// every accepted search date is already in the canonical `YYYYMMDD` form,
/// so echoing it in the response envelope is the same as re-formatting the
/// parsed date.
pub proof fn lemma_parse_format_roundtrip(s: Seq<char>)
    requires
        parse_ymd8(s) is Some,
    ensures
        ({
            let (y, m, d) = parse_ymd8(s)->Some_0;
            &&& 0 <= y <= 9999
            &&& 0 <= m <= 99
            &&& 0 <= d <= 99
            &&& format_ymd8(y, m, d) == s
        }),
{
    let (y, m, d) = parse_ymd8(s)->Some_0;
    lemma_dec_digits4(y, digit_val(s[0]), digit_val(s[1]), digit_val(s[2]), digit_val(s[3]));
    lemma_dec_digits2(m, digit_val(s[4]), digit_val(s[5]));
    lemma_dec_digits2(d, digit_val(s[6]), digit_val(s[7]));
    assert forall|i: int| 0 <= i < 8 implies format_ymd8(y, m, d)[i] == s[i] by {
        crate::text::lemma_digit_char_val(s[i]);
    }
    assert(format_ymd8(y, m, d) =~= s);
}

/// Reads an 8-digit `YYYYMMDD` string into year, month and day.
pub fn parse_date8(s: &str) -> (r: Option<(u32, u32, u32)>)
    ensures
        match r {
            Some(t) => {
                &&& parse_ymd8(s@) == Some((t.0 as int, t.1 as int, t.2 as int))
                &&& t.0 <= 9999
                &&& t.1 <= 99
                &&& t.2 <= 99
            },
            None => parse_ymd8(s@) is None,
        },
{
    if s.unicode_len() != 8 {
        return None;
    }
    let mut vals: Vec<u32> = Vec::new();
    let mut i: usize = 0;
    while i < 8
        invariant
            0 <= i <= 8,
            s@.len() == 8,
            vals@.len() == i,
            forall|j: int| 0 <= j < i ==> is_digit_char(#[trigger] s@[j]),
            forall|j: int| 0 <= j < i ==> #[trigger] vals@[j] < 10,
            forall|j: int| 0 <= j < i ==> #[trigger] vals@[j] as int == digit_val(s@[j]),
        decreases 8 - i,
    {
        let c = s.get_char(i);
        let ghost pre = vals@;
        match char_digit(c) {
            Some(v) => {
                vals.push(v);
                proof {
                    assert(s@[i as int] == c);
                    assert(vals@ == pre.push(v));
                    assert(forall|j: int| 0 <= j < i ==> #[trigger] vals@[j] == pre[j]);
                    assert(vals@[i as int] == v);
                }
            },
            None => {
                return None;
            },
        }
        i += 1;
    }
    let y = vals[0] * 1000 + vals[1] * 100 + vals[2] * 10 + vals[3];
    let m = vals[4] * 10 + vals[5];
    let d = vals[6] * 10 + vals[7];
    Some((y, m, d))
}

/// Writes `(y, m, d)` as an 8-character `YYYYMMDD` string.
pub fn format_date8(y: u32, m: u32, d: u32) -> (r: String)
    requires
        y <= 9999,
        m <= 99,
        d <= 99,
    ensures
        r@ == format_ymd8(y as int, m as int, d as int),
{
    let mut r = String::new();
    r.append(digit_str(y / 1000));
    r.append(digit_str(y / 100 % 10));
    r.append(digit_str(y / 10 % 10));
    r.append(digit_str(y % 10));
    r.append(digit_str(m / 10));
    r.append(digit_str(m % 10));
    r.append(digit_str(d / 10));
    r.append(digit_str(d % 10));
    proof {
        assert(y as int / 1000 == y as int / 1000 % 10);
        assert(m as int / 10 == m as int / 10 % 10);
        assert(d as int / 10 == d as int / 10 % 10);
        assert(r@ =~= format_ymd8(y as int, m as int, d as int));
    }
    r
}

/// The registration and expiry date strings derived from a `YYYYMMDD`
/// search date: 365 days before it and 1095 days after it, or `None` when
/// the input does not parse, is no calendar day, or a shifted year falls
/// outside 0..=9999.
pub open spec fn derived_dates(s: Seq<char>) -> Option<(Seq<char>, Seq<char>)> {
    match parse_ymd8(s) {
        None => None,
        Some((y, m, d)) => match (calendar_shift(y, m, d, -365), calendar_shift(y, m, d, 1095)) {
            (Some((ry, rm, rd)), Some((ey, em, ed))) => if 0 <= ry <= 9999 && 0 <= ey <= 9999 {
                Some((format_ymd8(ry, rm, rd), format_ymd8(ey, em, ed)))
            } else {
                None
            },
            _ => None,
        },
    }
}

/// The dates a successful response carries, each as `YYYYMMDD`.
pub struct DerivedDates {
    /// The registration date, 365 days before the search date.
    pub regdate: String,
    /// The first registration date, equal to the registration date.
    pub firstregdate: String,
    /// The expiry date, 1095 days after the search date.
    pub expirydate: String,
}

/// Derives the registration, first-registration and expiry dates from a
/// `YYYYMMDD` search date. Returns `None` exactly when `derived_dates` is
/// `None`; for a calendar day with a mid-range year it always succeeds.
pub fn derive(searchdate: &str) -> (r: Option<DerivedDates>)
    ensures
        match r {
            Some(dd) => {
                &&& derived_dates(searchdate@) matches Some(p)
                &&& dd.regdate@ == p.0
                &&& dd.firstregdate@ == p.0
                &&& dd.expirydate@ == p.1
            },
            None => derived_dates(searchdate@) is None,
        },
        (parse_ymd8(searchdate@) matches Some((y, m, d)) && valid_ymd(y, m, d) && 6 <= y <= 9993)
            ==> r is Some,
{
    match parse_date8(searchdate) {
        None => None,
        Some((y, m, d)) => {
            let reg = shift_ymd(y, m, d, -365);
            let exp = shift_ymd(y, m, d, 1095);
            match (reg, exp) {
                (Some(rt), Some(et)) => {
                    if 0 <= rt.0 && rt.0 <= 9999 && 0 <= et.0 && et.0 <= 9999 {
                        let regdate = format_date8(rt.0 as u32, rt.1, rt.2);
                        let firstregdate = regdate.clone();
                        let expirydate = format_date8(et.0 as u32, et.1, et.2);
                        Some(DerivedDates { regdate, firstregdate, expirydate })
                    } else {
                        None
                    }
                },
                _ => None,
            }
        },
    }
}

} // verus!

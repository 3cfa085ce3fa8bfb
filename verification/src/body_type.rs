//! The vehicle attribute resolver: maps a chassis number to a body-type
//! record by scanning the shape-code catalog for the first entry whose
//! two-digit code starts with the chassis number's lookup prefix, and falls
//! back to a uniformly random entry, which makes it total.

use vstd::prelude::*;

use crate::rng::random_below;
use crate::shape_code::ShapeCode;
use crate::shape_code::read_shape_codes;
use crate::shape_code::shape_codes_wf;
use crate::shape_code::shape_rows;
use crate::shape_code::shape_table;
use crate::text::char_digit;
use crate::text::dec_seq_of;
use crate::text::find_hyphen;
use crate::text::first_segment;
use crate::text::is_digit_char;
use crate::text::lemma_dec_seq_two_digits;
use crate::text::lemma_digit_char_is_digit;
use crate::text::lemma_digit_char_val;
use crate::text::lemma_first_hyphen;

verus! {

/// The resolved body type of a successful response.
pub struct BodyType {
    /// The body-type label.
    pub name: String,
    /// The two-digit classification code.
    pub cd: u32,
}

/// The lookup prefix of a chassis number: the first two characters of the
/// segment before the first hyphen, or the whole segment when it is shorter.
pub open spec fn lookup_prefix(s: Seq<char>) -> Seq<char> {
    let seg = first_segment(s);
    if seg.len() <= 2 {
        seg
    } else {
        seg.take(2)
    }
}

/// Whether the decimal writing of `code` starts with the non-empty `prefix`.
pub open spec fn code_matches_prefix(code: u32, prefix: Seq<char>) -> bool {
    prefix.len() > 0 && prefix.is_prefix_of(dec_seq_of(code as int))
}

/// The index of the first catalog row whose code matches `prefix`, if any.
pub open spec fn first_code_match(rows: Seq<(u32, Seq<char>)>, prefix: Seq<char>) -> Option<int>
    decreases rows.len(),
{
    if rows.len() == 0 {
        None
    } else if code_matches_prefix(rows[0].0, prefix) {
        Some(0int)
    } else {
        match first_code_match(rows.drop_first(), prefix) {
            None => None,
            Some(i) => Some(i + 1),
        }
    }
}

/// `first_code_match` points at the first matching row: the row there
/// matches and no earlier row does; `None` means no row matches.
pub proof fn lemma_first_code_match(rows: Seq<(u32, Seq<char>)>, prefix: Seq<char>)
    ensures
        match first_code_match(rows, prefix) {
            Some(i) => {
                &&& 0 <= i < rows.len()
                &&& code_matches_prefix(rows[i].0, prefix)
                &&& forall|j: int| 0 <= j < i ==> !code_matches_prefix((#[trigger] rows[j]).0, prefix)
            },
            None => forall|j: int|
                0 <= j < rows.len() ==> !code_matches_prefix((#[trigger] rows[j]).0, prefix),
        },
    decreases rows.len(),
{
    if rows.len() > 0 && !code_matches_prefix(rows[0].0, prefix) {
        lemma_first_code_match(rows.drop_first(), prefix);
        assert(forall|j: int| 1 <= j < rows.len() ==> #[trigger] rows[j] == rows.drop_first()[j - 1]);
    }
}

/// When the lookup prefix of a chassis number is exactly the two-digit
/// writing of the code of row `i`, and no earlier row's code matches that
/// prefix, the scan picks row `i`: together with `resolve`'s contract, a
/// chassis number whose first two pre-hyphen characters equal an entry's
/// code string resolves to exactly that entry, the first such in catalog
/// order.
pub proof fn lemma_exact_prefix_first_match(rows: Seq<(u32, Seq<char>)>, s: Seq<char>, i: int)
    requires
        0 <= i < rows.len(),
        10 <= rows[i].0 <= 99,
        lookup_prefix(s) == dec_seq_of(rows[i].0 as int),
        forall|j: int|
            0 <= j < i ==> !code_matches_prefix((#[trigger] rows[j]).0, lookup_prefix(s)),
    ensures
        first_code_match(rows, lookup_prefix(s)) == Some(i),
{
    let prefix = lookup_prefix(s);
    lemma_dec_seq_two_digits(rows[i].0 as int);
    assert(prefix.len() == 2);
    assert(prefix =~= dec_seq_of(rows[i].0 as int).subrange(0, 2));
    assert(code_matches_prefix(rows[i].0, prefix));
    lemma_first_code_match(rows, prefix);
    match first_code_match(rows, prefix) {
        None => {
            assert(false);
        },
        Some(k) => {
            if k < i {
                assert(!code_matches_prefix(rows[k].0, prefix));
            }
            if i < k {
                assert(!code_matches_prefix(rows[i].0, prefix));
            }
        },
    }
}

/// Whether the two-digit `code`'s decimal writing starts with the lookup
/// prefix of `s`.
fn prefix_matches(s: &str, code: u32) -> (r: bool)
    requires
        10 <= code <= 99,
    ensures
        r == code_matches_prefix(code, lookup_prefix(s@)),
{
    proof {
        lemma_first_hyphen(s@);
        lemma_dec_seq_two_digits(code as int);
        lemma_digit_char_is_digit(code as int / 10);
        lemma_digit_char_is_digit(code as int % 10);
    }
    let h = find_hyphen(s);
    let seg_len: usize = if h > 2 {
        2
    } else {
        h
    };
    let ghost prefix = lookup_prefix(s@);
    let ghost dec = dec_seq_of(code as int);
    proof {
        assert(prefix.len() == seg_len);
        assert(forall|i: int| 0 <= i < prefix.len() ==> #[trigger] prefix[i] == s@[i]);
    }
    if seg_len == 0 {
        return false;
    }
    let c0 = s.get_char(0);
    let m0 = match char_digit(c0) {
        Some(v) => v == code / 10,
        None => false,
    };
    proof {
        if is_digit_char(c0) {
            lemma_digit_char_val(c0);
        }
        assert(m0 == (c0 == dec[0]));
    }
    if seg_len == 1 {
        proof {
            assert(prefix.len() == 1);
            assert(prefix[0] == c0);
            if m0 {
                assert(prefix =~= dec.subrange(0, 1));
                assert(prefix.is_prefix_of(dec));
                assert(code_matches_prefix(code, lookup_prefix(s@)));
            } else {
                assert(prefix[0] != dec[0]);
                assert(!prefix.is_prefix_of(dec));
                assert(!code_matches_prefix(code, lookup_prefix(s@)));
            }
        }
        return m0;
    }
    let c1 = s.get_char(1);
    let m1 = match char_digit(c1) {
        Some(v) => v == code % 10,
        None => false,
    };
    proof {
        if is_digit_char(c1) {
            lemma_digit_char_val(c1);
        }
        assert(m1 == (c1 == dec[1]));
        assert(prefix.len() == 2);
        assert(prefix[0] == c0);
        assert(prefix[1] == c1);
        if m0 && m1 {
            assert(prefix =~= dec.subrange(0, 2));
            assert(prefix.is_prefix_of(dec));
            assert(code_matches_prefix(code, lookup_prefix(s@)));
        } else {
            assert(prefix[0] != dec[0] || prefix[1] != dec[1]);
            assert(!prefix.is_prefix_of(dec));
            assert(!code_matches_prefix(code, lookup_prefix(s@)));
        }
    }
    m0 && m1
}

/// Resolves a body type from the chassis number against the catalog: the
/// first entry whose two-digit code starts with the chassis number's lookup
/// prefix wins; when no entry matches, or the prefix is degenerate, a
/// uniformly random entry is returned, so the resolver never fails.
pub fn resolve(chassisno: &str, shape_codes: &Vec<ShapeCode>) -> (r: BodyType)
    requires
        shape_codes@.len() > 0,
        shape_codes_wf(shape_codes@),
    ensures
        ({
            let rows = shape_rows(shape_codes@);
            match first_code_match(rows, lookup_prefix(chassisno@)) {
                Some(i) => r.cd == rows[i].0 && r.name@ == rows[i].1,
                None => true,
            }
        }),
        exists|i: int|
            0 <= i < shape_codes@.len() && r.cd == (#[trigger] shape_codes@[i]).code && r.name@
                == shape_codes@[i].body_type@,
{
    let ghost rows = shape_rows(shape_codes@);
    proof {
        lemma_first_code_match(rows, lookup_prefix(chassisno@));
    }
    let mut k: usize = 0;
    while k < shape_codes.len()
        invariant
            0 <= k <= shape_codes@.len(),
            rows == shape_rows(shape_codes@),
            shape_codes_wf(shape_codes@),
            forall|j: int|
                0 <= j < k ==> !code_matches_prefix(
                    (#[trigger] rows[j]).0,
                    lookup_prefix(chassisno@),
                ),
            match first_code_match(rows, lookup_prefix(chassisno@)) {
                Some(i) => 0 <= i < rows.len() && code_matches_prefix(
                    rows[i].0,
                    lookup_prefix(chassisno@),
                ) && forall|j: int|
                    0 <= j < i ==> !code_matches_prefix(
                        (#[trigger] rows[j]).0,
                        lookup_prefix(chassisno@),
                    ),
                None => forall|j: int|
                    0 <= j < rows.len() ==> !code_matches_prefix(
                        (#[trigger] rows[j]).0,
                        lookup_prefix(chassisno@),
                    ),
            },
        decreases shape_codes@.len() - k,
    {
        let entry = &shape_codes[k];
        if prefix_matches(chassisno, entry.code) {
            proof {
                assert(code_matches_prefix(rows[k as int].0, lookup_prefix(chassisno@)));
                assert(first_code_match(rows, lookup_prefix(chassisno@)) == Some(k as int));
            }
            return BodyType { name: entry.body_type.clone(), cd: entry.code };
        }
        k += 1;
    }
    let idx = random_below(0, shape_codes.len());
    let entry = &shape_codes[idx];
    BodyType { name: entry.body_type.clone(), cd: entry.code }
}

/// Resolves a body type for `chassisno` against the bundled shape-code
/// catalog.
pub fn get_body_type(chassisno: String) -> (r: BodyType)
    ensures
        ({
            match first_code_match(shape_table(), lookup_prefix(chassisno@)) {
                Some(i) => r.cd == shape_table()[i].0 && r.name@ == shape_table()[i].1,
                None => true,
            }
        }),
        exists|i: int|
            0 <= i < shape_table().len() && r.cd == (#[trigger] shape_table()[i]).0 && r.name@
                == shape_table()[i].1,
{
    let shape_codes = read_shape_codes();
    let r = resolve(chassisno.as_str(), &shape_codes);
    proof {
        let i = choose|i: int|
            0 <= i < shape_codes@.len() && r.cd == (#[trigger] shape_codes@[i]).code && r.name@
                == shape_codes@[i].body_type@;
        assert(shape_table()[i] == (r.cd, r.name@));
    }
    r
}

/// A uniformly random entry of the bundled shape-code catalog.
pub fn get_random_body_type() -> (r: BodyType)
    ensures
        exists|i: int|
            0 <= i < shape_table().len() && r.cd == (#[trigger] shape_table()[i]).0 && r.name@
                == shape_table()[i].1,
{
    let shape_codes = read_shape_codes();
    let idx = random_below(0, shape_codes.len());
    let entry = &shape_codes[idx];
    proof {
        assert(shape_table()[idx as int] == (entry.code, entry.body_type@));
    }
    BodyType { name: entry.body_type.clone(), cd: entry.code }
}

} // verus!

//! Character and string helpers: decimal digits, hyphen-delimited segments,
//! and plain string equality, with full functional specifications.

use vstd::prelude::*;

verus! {

/// Whether `c` is a decimal digit character.
pub open spec fn is_digit_char(c: char) -> bool {
    48 <= c as int && c as int <= 57
}

/// The numeric value of a decimal digit character.
pub open spec fn digit_val(c: char) -> int {
    c as int - 48
}

/// The character that writes a single decimal digit value.
pub open spec fn digit_char(v: int) -> char {
    if v == 0 {
        '0'
    } else if v == 1 {
        '1'
    } else if v == 2 {
        '2'
    } else if v == 3 {
        '3'
    } else if v == 4 {
        '4'
    } else if v == 5 {
        '5'
    } else if v == 6 {
        '6'
    } else if v == 7 {
        '7'
    } else if v == 8 {
        '8'
    } else {
        '9'
    }
}

/// `digit_char` and `digit_val` invert each other on digits.
pub proof fn lemma_digit_char_val(c: char)
    requires
        is_digit_char(c),
    ensures
        digit_char(digit_val(c)) == c,
{
}

/// A one-character string for a decimal digit value.
pub fn digit_str(v: u32) -> (r: &'static str)
    requires
        v < 10,
    ensures
        r@ =~= seq![digit_char(v as int)],
{
    let r: &'static str = match v {
        0 => "0",
        1 => "1",
        2 => "2",
        3 => "3",
        4 => "4",
        5 => "5",
        6 => "6",
        7 => "7",
        8 => "8",
        _ => "9",
    };
    proof {
        reveal_strlit("0");
        reveal_strlit("1");
        reveal_strlit("2");
        reveal_strlit("3");
        reveal_strlit("4");
        reveal_strlit("5");
        reveal_strlit("6");
        reveal_strlit("7");
        reveal_strlit("8");
        reveal_strlit("9");
    }
    r
}

/// The digit value of `c`, or `None` when `c` is no decimal digit.
pub fn char_digit(c: char) -> (r: Option<u32>)
    ensures
        match r {
            Some(v) => is_digit_char(c) && v < 10 && v as int == digit_val(c),
            None => !is_digit_char(c),
        },
{
    let u = c as u32;
    if 48 <= u && u <= 57 {
        Some(u - 48)
    } else {
        None
    }
}

/// The decimal writing of a non-negative integer, most significant digit first.
pub open spec fn dec_seq_of(n: int) -> Seq<char>
    decreases n,
{
    if n < 10 {
        seq![digit_char(n)]
    } else {
        dec_seq_of(n / 10).push(digit_char(n % 10))
    }
}

/// `digit_char` writes a digit character, and `digit_val` reads it back.
pub proof fn lemma_digit_char_is_digit(v: int)
    requires
        0 <= v <= 9,
    ensures
        is_digit_char(digit_char(v)),
        digit_val(digit_char(v)) == v,
{
}

/// The decimal writing of a two-digit number is its two digit characters.
pub proof fn lemma_dec_seq_two_digits(n: int)
    requires
        10 <= n <= 99,
    ensures
        dec_seq_of(n) =~= seq![digit_char(n / 10), digit_char(n % 10)],
{
    reveal_with_fuel(dec_seq_of, 2);
}

/// The index of the first hyphen in `s`, or `s.len()` if there is none.
pub open spec fn first_hyphen(s: Seq<char>) -> int
    decreases s.len(),
{
    if s.len() == 0 {
        0
    } else if s[0] == '-' {
        0
    } else {
        1 + first_hyphen(s.drop_first())
    }
}

/// `first_hyphen` points at the first hyphen: nothing before it is a hyphen,
/// and it is a hyphen itself unless it is the length of the sequence.
pub proof fn lemma_first_hyphen(s: Seq<char>)
    ensures
        0 <= first_hyphen(s) <= s.len(),
        forall|i: int| 0 <= i < first_hyphen(s) ==> s[i] != '-',
        first_hyphen(s) < s.len() ==> s[first_hyphen(s)] == '-',
    decreases s.len(),
{
    if s.len() != 0 && s[0] != '-' {
        lemma_first_hyphen(s.drop_first());
        assert(forall|i: int|
            1 <= i < first_hyphen(s) ==> s[i] == s.drop_first()[i - 1] && s.drop_first()[i - 1]
                != '-');
    }
}

/// The segment of `s` before its first hyphen.
pub open spec fn first_segment(s: Seq<char>) -> Seq<char> {
    s.take(first_hyphen(s))
}

/// The segment of `s` between its first hyphen and the next hyphen or the
/// end, or `None` when `s` has no hyphen at all.
pub open spec fn second_segment(s: Seq<char>) -> Option<Seq<char>> {
    if first_hyphen(s) == s.len() {
        None
    } else {
        let rest = s.subrange(first_hyphen(s) + 1, s.len() as int);
        Some(rest.take(first_hyphen(rest)))
    }
}

/// The index of the first hyphen of `s`, or its character length if none.
pub fn find_hyphen(s: &str) -> (r: usize)
    ensures
        r as int == first_hyphen(s@),
{
    let n = s.unicode_len();
    let mut i: usize = 0;
    proof {
        lemma_first_hyphen(s@);
    }
    while i < n
        invariant
            0 <= i <= n,
            n == s@.len(),
            forall|j: int| 0 <= j < i ==> s@[j] != '-',
            0 <= first_hyphen(s@) <= s@.len(),
            forall|j: int| 0 <= j < first_hyphen(s@) ==> s@[j] != '-',
            first_hyphen(s@) < s@.len() ==> s@[first_hyphen(s@)] == '-',
        decreases n - i,
    {
        if s.get_char(i) == '-' {
            return i;
        }
        i += 1;
    }
    i
}

/// Whether two strings hold the same characters.
pub fn str_eq(a: &str, b: &str) -> (r: bool)
    ensures
        r == (a@ == b@),
{
    let n = a.unicode_len();
    if n != b.unicode_len() {
        return false;
    }
    let mut i: usize = 0;
    while i < n
        invariant
            0 <= i <= n,
            n == a@.len(),
            n == b@.len(),
            forall|j: int| 0 <= j < i ==> a@[j] == b@[j],
        decreases n - i,
    {
        if a.get_char(i) != b.get_char(i) {
            return false;
        }
        i += 1;
    }
    proof {
        assert(a@ =~= b@);
    }
    true
}

} // verus!

//! Recognising the comments that the gateway cares about.
//!
//! * An OCR request names one of the keywords `XT ABAs` or
//!   `XT I'm running ABAs`.
//! * A time-spent report reads `Thanks <n>!` or `thanks <n>!`, one white-space
//!   character after `Thanks`, where `<n>` is one decimal digit, or one digit,
//!   a dot and one to three digits (the pattern
//!   `(T|t)hanks\s(?P<t>(\d{1})|(\d\.\d{1,3}))!`).
//! * A Rally payload mentions the identifier of the Rally text field.

use vstd::prelude::*;
use crate::text::{
    chars_of, contains_exec, contains_seq, decimal_digit, is_decimal_digit, is_white_space,
    white_space,
};

verus! {

broadcast use vstd::string::group_string_axioms;

// ---------------------------------------------------------------------------
// Specifications.
// ---------------------------------------------------------------------------

/// `s` names one of the OCR keywords.
pub open spec fn has_ocr_keyword(s: Seq<char>) -> bool {
    contains_seq(s, "XT ABAs"@) || contains_seq(s, "XT I'm running ABAs"@)
}

/// `s` mentions the identifier of the Rally text field.
pub open spec fn has_rally_field(s: Seq<char>) -> bool {
    contains_seq(s, "26803fda-2e78-4d9f-931d-84b8261d6f7b"@)
}

/// `Thanks` or `thanks` followed by one white-space character starts at `i`.
pub open spec fn thanks_at(s: Seq<char>, i: int) -> bool {
    &&& 0 <= i
    &&& i + 7 <= s.len()
    &&& (s[i] == 'T' || s[i] == 't')
    &&& s[i + 1] == 'h'
    &&& s[i + 2] == 'a'
    &&& s[i + 3] == 'n'
    &&& s[i + 4] == 'k'
    &&& s[i + 5] == 's'
    &&& white_space(s[i + 6])
}

/// Length of the time value that starts at `p` and is closed by `!`, or `0`
/// when there is none.  The alternatives are tried in the order of the
/// pattern: one digit first, then a digit, a dot and as many digits (up to
/// three) as are there.
pub open spec fn time_value_len(s: Seq<char>, p: int) -> int {
    if 0 <= p && p + 2 <= s.len() && decimal_digit(s[p]) && s[p + 1] == '!' {
        1
    } else if 0 <= p && p + 6 <= s.len() && decimal_digit(s[p]) && s[p + 1] == '.'
        && decimal_digit(s[p + 2]) && decimal_digit(s[p + 3]) && decimal_digit(s[p + 4])
        && s[p + 5] == '!' {
        5
    } else if 0 <= p && p + 5 <= s.len() && decimal_digit(s[p]) && s[p + 1] == '.'
        && decimal_digit(s[p + 2]) && decimal_digit(s[p + 3]) && s[p + 4] == '!' {
        4
    } else if 0 <= p && p + 4 <= s.len() && decimal_digit(s[p]) && s[p + 1] == '.'
        && decimal_digit(s[p + 2]) && s[p + 3] == '!' {
        3
    } else {
        0
    }
}

/// A complete time-spent report starts at `i`.
pub open spec fn time_spent_at(s: Seq<char>, i: int) -> bool {
    thanks_at(s, i) && time_value_len(s, i + 7) > 0
}

/// `s` holds a time-spent report somewhere.
pub open spec fn has_time_spent(s: Seq<char>) -> bool {
    exists|i: int| time_spent_at(s, i)
}

/// The time value of the first report in `s[i..]`.
pub open spec fn time_value_from(s: Seq<char>, i: int) -> Option<Seq<char>>
    decreases s.len() - i,
{
    if i < 0 || i >= s.len() {
        None
    } else if time_spent_at(s, i) {
        Some(s.subrange(i + 7, i + 7 + time_value_len(s, i + 7)))
    } else {
        time_value_from(s, i + 1)
    }
}

/// The time value of the first time-spent report of `s` (the text captured
/// as `t` by the pattern).
pub open spec fn time_value(s: Seq<char>) -> Option<Seq<char>> {
    time_value_from(s, 0)
}

// ---------------------------------------------------------------------------
// Laws.
// ---------------------------------------------------------------------------

proof fn lemma_time_value_from(s: Seq<char>, i: int)
    requires
        0 <= i,
    ensures
        time_value_from(s, i) is Some <==> exists|j: int| i <= j && time_spent_at(s, j),
    decreases s.len() - i,
{
    if i < s.len() {
        lemma_time_value_from(s, i + 1);
        if !time_spent_at(s, i) {
            if exists|j: int| i <= j && time_spent_at(s, j) {
                let j = choose|j: int| i <= j && time_spent_at(s, j);
                assert(i + 1 <= j);
            }
        }
    } else {
        assert forall|j: int| i <= j implies !time_spent_at(s, j) by {}
    }
}

/// A time value is captured exactly when the text holds a time-spent report.
pub proof fn law_time_value_iff_report(s: Seq<char>)
    ensures
        time_value(s) is Some <==> has_time_spent(s),
{
    lemma_time_value_from(s, 0);
    if has_time_spent(s) {
        let j = choose|j: int| time_spent_at(s, j);
        assert(0 <= j && time_spent_at(s, j));
    }
}

/// A captured time value begins with a decimal digit and is one character
/// long, or three to five characters long with a dot in second place.
pub proof fn law_time_value_shape(s: Seq<char>, i: int)
    requires
        0 <= i,
        time_value_from(s, i) is Some,
    ensures
        ({
            let t = time_value_from(s, i)->Some_0;
            &&& decimal_digit(t[0])
            &&& t.len() == 1 || (3 <= t.len() <= 5 && t[1] == '.')
        }),
    decreases s.len() - i,
{
    if i < s.len() && !time_spent_at(s, i) {
        law_time_value_shape(s, i + 1);
    }
}


proof fn lemma_time_value_skips(s: Seq<char>, i: int, m: int)
    requires
        0 <= i <= m < s.len(),
        forall|j: int| i <= j < m ==> !#[trigger] time_spent_at(s, j),
    ensures
        time_value_from(s, i) == time_value_from(s, m),
    decreases m - i,
{
    if i < m {
        lemma_time_value_skips(s, i + 1, m);
    }
}

/// `Thanks`, or `thanks` when not `capital`.
pub open spec fn thanks_word(capital: bool) -> Seq<char> {
    if capital {
        "Thanks"@
    } else {
        "thanks"@
    }
}

/// `p`, then `Thanks` (or `thanks`), `c`, `d` and `!`, then `rest`.
pub open spec fn thanks_text(p: Seq<char>, capital: bool, c: char, d: char, rest: Seq<char>) -> Seq<char> {
    p + thanks_word(capital) + seq![c, d, '!'] + rest
}

/// `Thanks` (or `thanks`), one white-space character, a decimal digit and
/// `!`, after a text in which no report starts, report that digit.
pub proof fn law_thanks_digit(p: Seq<char>, capital: bool, c: char, d: char, rest: Seq<char>)
    requires
        white_space(c),
        decimal_digit(d),
        forall|j: int|
            0 <= j < p.len() ==> !#[trigger] time_spent_at(
                thanks_text(p, capital, c, d, rest),
                j,
            ),
    ensures
        time_value(thanks_text(p, capital, c, d, rest))
            == Some(seq![d]),
{
    reveal_strlit("Thanks");
    reveal_strlit("thanks");
    let k = thanks_word(capital);
    let s = p + k + seq![c, d, '!'] + rest;
    let i = p.len() as int;
    assert(k.len() == 6);
    assert(s[i] == k[0]);
    assert(s[i + 1] == k[1] && s[i + 2] == k[2] && s[i + 3] == k[3] && s[i + 4] == k[4] && s[i
        + 5] == k[5]);
    assert(s[i + 6] == c && s[i + 7] == d && s[i + 8] == '!');
    assert(time_value_len(s, i + 7) == 1);
    assert(time_spent_at(s, i));
    lemma_time_value_skips(s, 0, i);
    assert(s.subrange(i + 7, i + 8) =~= seq![d]);
}

/// `p`, then `Thanks` (or `thanks`), `c`, `d`, `.`, the digits `ds` and `!`,
/// then `rest`.
pub open spec fn thanks_decimal_text(
    p: Seq<char>,
    capital: bool,
    c: char,
    d: char,
    ds: Seq<char>,
    rest: Seq<char>,
) -> Seq<char> {
    p + thanks_word(capital) + seq![c, d, '.'] + ds + seq!['!'] + rest
}

/// `Thanks` (or `thanks`), one white-space character, a decimal digit, a dot,
/// one to three decimal digits and `!`, after a text in which no report
/// starts, report the whole number between the white space and the `!`.
pub proof fn law_thanks_decimal(
    p: Seq<char>,
    capital: bool,
    c: char,
    d: char,
    ds: Seq<char>,
    rest: Seq<char>,
)
    requires
        white_space(c),
        decimal_digit(d),
        1 <= ds.len() <= 3,
        forall|k: int| 0 <= k < ds.len() ==> decimal_digit(#[trigger] ds[k]),
        forall|j: int|
            0 <= j < p.len() ==> !#[trigger] time_spent_at(
                thanks_decimal_text(p, capital, c, d, ds, rest),
                j,
            ),
    ensures
        time_value(thanks_decimal_text(p, capital, c, d, ds, rest)) == Some(seq![d, '.'] + ds),
{
    reveal_strlit("Thanks");
    reveal_strlit("thanks");
    let k = thanks_word(capital);
    let s = thanks_decimal_text(p, capital, c, d, ds, rest);
    let i = p.len() as int;
    let n = ds.len() as int;
    assert(k.len() == 6);
    assert(s.len() == i + 10 + n + rest.len());
    assert(s[i] == k[0]);
    assert(s[i + 1] == k[1] && s[i + 2] == k[2] && s[i + 3] == k[3] && s[i + 4] == k[4] && s[i
        + 5] == k[5]);
    assert(s[i + 6] == c && s[i + 7] == d && s[i + 8] == '.');
    assert forall|m: int| 0 <= m < n implies s[i + 9 + m] == ds[m] by {}
    assert(s[i + 9 + n] == '!');
    assert(!decimal_digit('!'));
    let v = s.subrange(i + 7, i + 9 + n);
    if n == 1 {
        assert(decimal_digit(s[i + 9]));
        assert(time_value_len(s, i + 7) == 3);
    } else if n == 2 {
        assert(decimal_digit(s[i + 9]) && decimal_digit(s[i + 10]));
        assert(time_value_len(s, i + 7) == 4);
    } else {
        assert(decimal_digit(s[i + 9]) && decimal_digit(s[i + 10]) && decimal_digit(s[i + 11]));
        assert(time_value_len(s, i + 7) == 5);
    }
    assert(time_spent_at(s, i));
    lemma_time_value_skips(s, 0, i);
    assert(v =~= seq![d, '.'] + ds) by {
        assert forall|m: int| 0 <= m < n + 2 implies v[m] == (seq![d, '.'] + ds)[m] by {
            if m >= 2 {
                assert(v[m] == s[i + 9 + (m - 2)]);
            }
        }
    }
}

// ---------------------------------------------------------------------------
// Executable functions.
// ---------------------------------------------------------------------------

fn time_value_len_exec(v: &Vec<char>, p: usize) -> (n: usize)
    ensures
        n == time_value_len(v@, p as int),
{
    let len = v.len();
    if p < len && len - p >= 2 && is_decimal_digit(v[p]) && v[p + 1] == '!' {
        1
    } else if p < len && len - p >= 6 && is_decimal_digit(v[p]) && v[p + 1] == '.'
        && is_decimal_digit(v[p + 2]) && is_decimal_digit(v[p + 3]) && is_decimal_digit(v[p + 4])
        && v[p + 5] == '!' {
        5
    } else if p < len && len - p >= 5 && is_decimal_digit(v[p]) && v[p + 1] == '.'
        && is_decimal_digit(v[p + 2]) && is_decimal_digit(v[p + 3]) && v[p + 4] == '!' {
        4
    } else if p < len && len - p >= 4 && is_decimal_digit(v[p]) && v[p + 1] == '.'
        && is_decimal_digit(v[p + 2]) && v[p + 3] == '!' {
        3
    } else {
        0
    }
}

fn thanks_at_exec(v: &Vec<char>, i: usize) -> (r: bool)
    ensures
        r == thanks_at(v@, i as int),
{
    i < v.len() && v.len() - i >= 7 && (v[i] == 'T' || v[i] == 't') && v[i + 1] == 'h' && v[i
        + 2] == 'a' && v[i + 3] == 'n' && v[i + 4] == 'k' && v[i + 5] == 's' && is_white_space(
        v[i + 6],
    )
}

/// Locates the time value of the first time-spent report of `v`.
pub fn find_time_value(v: &Vec<char>) -> (r: Option<(usize, usize)>)
    ensures
        match r {
            Some((a, b)) => a <= b <= v.len() && time_value(v@) == Some(v@.subrange(
                a as int,
                b as int,
            )),
            None => time_value(v@) is None,
        },
{
    let mut i: usize = 0;
    while i < v.len()
        invariant
            i <= v.len(),
            time_value_from(v@, 0) == time_value_from(v@, i as int),
        decreases v.len() - i,
    {
        if thanks_at_exec(v, i) {
            let n = time_value_len_exec(v, i + 7);
            if n > 0 {
                return Some((i + 7, i + 7 + n));
            }
        }
        i = i + 1;
    }
    None
}

/// Whether `s` names one of the OCR keywords.
pub fn contains_ocr_patten(s: &str) -> (r: bool)
    ensures
        r == has_ocr_keyword(s@),
{
    let v = chars_of(s);
    let k1 = chars_of("XT ABAs");
    if contains_exec(&v, &k1) {
        return true;
    }
    let k2 = chars_of("XT I'm running ABAs");
    contains_exec(&v, &k2)
}

/// Whether `s` holds a time-spent report.
pub fn contains_time_spent_pattern(s: &str) -> (r: bool)
    ensures
        r == has_time_spent(s@),
{
    let v = chars_of(s);
    proof {
        law_time_value_iff_report(s@);
    }
    find_time_value(&v).is_some()
}

/// Whether `s` mentions the identifier of the Rally text field.
pub fn contains_rally_pattern(s: &str) -> (r: bool)
    ensures
        r == has_rally_field(s@),
{
    let v = chars_of(s);
    let k = chars_of("26803fda-2e78-4d9f-931d-84b8261d6f7b");
    contains_exec(&v, &k)
}

/// Whether `s` is of interest at all: it names an OCR keyword or holds a
/// time-spent report.
pub fn contain_keywords(s: &str) -> (r: bool)
    ensures
        r == (has_ocr_keyword(s@) || has_time_spent(s@)),
{
    contains_ocr_patten(s) || contains_time_spent_pattern(s)
}

} // verus!

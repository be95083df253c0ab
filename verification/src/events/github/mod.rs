//! GitHub webhook events, and the work items that titles refer to.
//!
//! A work item is `DE` or `US` followed by four to eight decimal digits; a
//! title may list several, separated by commas with optional white space.
//! Titles are matched after upper-casing, against the pattern
//! `((DE)|(US))\d{4,8}(\s*,\s*((DE)|(US))\d{4,8})*`, leftmost match first.

pub mod comment;
pub mod event;
pub mod handler;
pub mod issue;
pub mod pull_request;
pub mod review;
pub mod sender;
pub mod user;

use vstd::prelude::*;
use crate::text::{
    ascii_upper, chars_of, contains_seq, is_ascii_text, law_ascii_case, ascii_lower, decimal_digit, occurs_at, is_decimal_digit, lemma_ws_run_bounds, skip_ws, string_of,
    to_uppercase, uppercase, white_space, ws_run,
};

verus! {

/// The body of a comment posted to an issue.
pub struct PostComment<'a> {
    pub body: &'a str,
}

// ---------------------------------------------------------------------------
// Specifications.
// ---------------------------------------------------------------------------

/// `DE` or `US` starts at `p`.
pub open spec fn item_code_at(s: Seq<char>, p: int) -> bool {
    0 <= p && p + 2 <= s.len() && ((s[p] == 'D' && s[p + 1] == 'E') || (s[p] == 'U' && s[p + 1]
        == 'S'))
}

/// Number of consecutive decimal digits of `s` from `p`, at most `cap`.
pub open spec fn digit_run(s: Seq<char>, p: int, cap: nat) -> nat
    decreases cap,
{
    if cap == 0 || p < 0 || p >= s.len() {
        0
    } else if decimal_digit(s[p]) {
        1 + digit_run(s, p + 1, (cap - 1) as nat)
    } else {
        0
    }
}

/// Length of the work item that starts at `p` (its digits taken greedily, up
/// to eight), or `0` when none does.
pub open spec fn item_len(s: Seq<char>, p: int) -> nat {
    if item_code_at(s, p) && digit_run(s, p + 2, 8) >= 4 {
        2 + digit_run(s, p + 2, 8)
    } else {
        0
    }
}

/// End of the `, item` that continues a list at `q`, or `q` when the list
/// does not continue there.
pub open spec fn next_item_end(s: Seq<char>, q: int) -> int {
    let c = q + ws_run(s, q);
    if 0 <= q && c < s.len() && s[c] == ',' {
        let r = c + 1 + ws_run(s, c + 1);
        if item_len(s, r) > 0 {
            r + item_len(s, r)
        } else {
            q
        }
    } else {
        q
    }
}

/// End of the list of work items that continues at `q`.
pub open spec fn item_list_end(s: Seq<char>, q: int) -> int
    decreases s.len() - q,
{
    if q < 0 || q >= s.len() {
        q
    } else {
        let e = next_item_end(s, q);
        if q < e <= s.len() {
            item_list_end(s, e)
        } else {
            q
        }
    }
}

/// The first list of work items in `s[i..]`.
pub open spec fn work_items_from(s: Seq<char>, i: int) -> Option<Seq<char>>
    decreases s.len() - i,
{
    if i < 0 || i >= s.len() {
        None
    } else if item_len(s, i) > 0 {
        Some(s.subrange(i, item_list_end(s, i + item_len(s, i))))
    } else {
        work_items_from(s, i + 1)
    }
}

/// The work items that the ASCII text `s` refers to, as they appear in its
/// upper-cased form.
pub open spec fn ascii_work_product(s: Seq<char>) -> Option<Seq<char>> {
    work_items_from(ascii_upper(s), 0)
}

/// The work items that the text `s` refers to, as they appear in its
/// upper-cased form.
pub open spec fn work_product_of(s: Seq<char>) -> Option<Seq<char>> {
    work_items_from(uppercase(s), 0)
}

// ---------------------------------------------------------------------------
// Lemmas and laws.
// ---------------------------------------------------------------------------

proof fn lemma_digit_run_bounds(s: Seq<char>, p: int, cap: nat)
    requires
        0 <= p <= s.len(),
    ensures
        digit_run(s, p, cap) <= cap,
        p + digit_run(s, p, cap) <= s.len(),
        forall|k: int| p <= k < p + digit_run(s, p, cap) ==> decimal_digit(#[trigger] s[k]),
    decreases cap,
{
    if cap > 0 && p < s.len() && decimal_digit(s[p]) {
        lemma_digit_run_bounds(s, p + 1, (cap - 1) as nat);
    }
}

proof fn lemma_item_len_bounds(s: Seq<char>, p: int)
    requires
        0 <= p <= s.len(),
    ensures
        p + item_len(s, p) <= s.len(),
        item_len(s, p) > 0 ==> 6 <= item_len(s, p) <= 10,
{
    if p + 2 <= s.len() {
        lemma_digit_run_bounds(s, p + 2, 8);
    }
}

proof fn lemma_next_item_end_bounds(s: Seq<char>, q: int)
    requires
        0 <= q <= s.len(),
    ensures
        q <= next_item_end(s, q) <= s.len(),
{
    lemma_ws_run_bounds(s, q);
    let c = q + ws_run(s, q);
    if c < s.len() && s[c] == ',' {
        lemma_ws_run_bounds(s, c + 1);
        lemma_item_len_bounds(s, c + 1 + ws_run(s, c + 1));
    }
}

proof fn lemma_item_list_end_bounds(s: Seq<char>, q: int)
    requires
        0 <= q <= s.len(),
    ensures
        q <= item_list_end(s, q) <= s.len(),
    decreases s.len() - q,
{
    if q < s.len() {
        lemma_next_item_end_bounds(s, q);
        let e = next_item_end(s, q);
        if q < e {
            lemma_item_list_end_bounds(s, e);
        }
    }
}

/// The work items found in a text are a piece of it that starts with a work
/// item code followed by at least four digits.
pub proof fn law_work_items_are_a_piece(s: Seq<char>, i: int)
    requires
        0 <= i,
        work_items_from(s, i) is Some,
    ensures
        ({
            let w = work_items_from(s, i)->Some_0;
            &&& contains_seq(s, w)
            &&& item_code_at(w, 0)
            &&& w.len() >= 6
            &&& forall|k: int| 2 <= k < 6 ==> decimal_digit(#[trigger] w[k])
        }),
    decreases s.len() - i,
{
    if i < s.len() {
        if item_len(s, i) > 0 {
            lemma_item_len_bounds(s, i);
            lemma_digit_run_bounds(s, i + 2, 8);
            lemma_item_list_end_bounds(s, i + item_len(s, i));
            let e = item_list_end(s, i + item_len(s, i));
            let w = s.subrange(i, e);
            assert(s.subrange(i, i + w.len()) =~= w);
            assert(occurs_at(s, w, i));
            assert forall|k: int| 2 <= k < 6 implies decimal_digit(#[trigger] w[k]) by {
                assert(w[k] == s[i + k]);
            }
        } else {
            law_work_items_are_a_piece(s, i + 1);
        }
    }
}

/// The work items of ASCII text do not depend on the case of its letters:
/// the text with its letters lower-cased (still ASCII) names the same items.
pub proof fn law_work_product_ignores_ascii_case(s: Seq<char>)
    requires
        is_ascii_text(s),
    ensures
        is_ascii_text(ascii_lower(s)),
        ascii_work_product(ascii_lower(s)) == ascii_work_product(s),
{
    law_ascii_case(s);
}

/// No work items are found exactly when no work item starts anywhere.
pub proof fn law_no_work_items(s: Seq<char>, i: int)
    requires
        0 <= i,
    ensures
        work_items_from(s, i) is None <==> forall|j: int| i <= j ==> item_len(s, j) == 0,
    decreases s.len() - i,
{
    if i < s.len() {
        law_no_work_items(s, i + 1);
        if item_len(s, i) == 0 {
            assert forall|j: int| i <= j && (forall|k: int| i + 1 <= k ==> item_len(s, k) == 0)
                implies item_len(s, j) == 0 by {
                if j > i {
                }
            }
        }
    } else {
        assert forall|j: int| i <= j implies item_len(s, j) == 0 by {}
    }
}


/// `DE` or `US` followed by at least four decimal digits starts at `j`.
pub open spec fn item_starts(s: Seq<char>, j: int) -> bool {
    &&& item_code_at(s, j)
    &&& j + 6 <= s.len()
    &&& forall|k: int| j + 2 <= k < j + 6 ==> decimal_digit(#[trigger] s[k])
}

/// Every character of `s[a..b]` is white space.
pub open spec fn all_white(s: Seq<char>, a: int, b: int) -> bool {
    forall|k: int| a <= k < b ==> white_space(#[trigger] s[k])
}

/// A further `, item` (white space, a comma, white space and a work item)
/// follows at `e`, the comma at `a` and the item at `b`.
pub open spec fn continues_with(s: Seq<char>, e: int, a: int, b: int) -> bool {
    &&& e <= a < b
    &&& all_white(s, e, a)
    &&& s[a] == ','
    &&& all_white(s, a + 1, b)
    &&& item_starts(s, b)
}

/// `w` is found at `i` in `s` as a list of work items should be: the first
/// work item of the text starts there; the list ends with a whole work item
/// (its code and four to eight digits, all of them when fewer than nine
/// follow); and no further `, item` follows it.
pub open spec fn list_found_at(s: Seq<char>, w: Seq<char>, i: int) -> bool {
    let e = i + w.len();
    &&& 0 <= i
    &&& e <= s.len()
    &&& s.subrange(i, e) == w
    &&& item_starts(s, i)
    &&& forall|j: int| 0 <= j < i ==> !#[trigger] item_starts(s, j)
    &&& exists|r: int|
        #![trigger item_code_at(s, r)]
        i <= r && item_code_at(s, r) && r + 6 <= e <= r + 10 && forall|k: int|
            r + 2 <= k < e ==> decimal_digit(#[trigger] s[k])
    &&& (e < s.len() && decimal_digit(s[e]) ==> forall|k: int|
        e - 8 <= k < e ==> decimal_digit(#[trigger] s[k]))
    &&& forall|a: int, b: int| !#[trigger] continues_with(s, e, a, b)
}

proof fn lemma_digit_run_at_least(s: Seq<char>, p: int, cap: nat, n: nat)
    requires
        0 <= p <= s.len(),
        n <= cap,
    ensures
        digit_run(s, p, cap) >= n <==> (p + n <= s.len() && forall|k: int|
            p <= k < p + n ==> decimal_digit(#[trigger] s[k])),
    decreases n,
{
    if n > 0 && p < s.len() {
        if decimal_digit(s[p]) {
            lemma_digit_run_at_least(s, p + 1, (cap - 1) as nat, (n - 1) as nat);
            if p + n <= s.len() && forall|k: int| p <= k < p + n ==> decimal_digit(#[trigger] s[k]) {
                assert forall|k: int| p + 1 <= k < p + 1 + (n - 1) implies decimal_digit(
                    #[trigger] s[k],
                ) by {}
            }
            if digit_run(s, p, cap) >= n {
                assert forall|k: int| p <= k < p + n implies decimal_digit(#[trigger] s[k]) by {
                    if k > p {
                    }
                }
            }
        } else {
            assert(!(forall|k: int| p <= k < p + n ==> decimal_digit(#[trigger] s[k])));
        }
    }
}

proof fn lemma_digit_run_stops(s: Seq<char>, p: int, cap: nat)
    requires
        0 <= p <= s.len(),
    ensures
        digit_run(s, p, cap) < cap && p + digit_run(s, p, cap) < s.len() ==> !decimal_digit(
            s[p + digit_run(s, p, cap)],
        ),
    decreases cap,
{
    if cap > 0 && p < s.len() && decimal_digit(s[p]) {
        lemma_digit_run_stops(s, p + 1, (cap - 1) as nat);
    }
}

proof fn lemma_item_len_iff_starts(s: Seq<char>, j: int)
    requires
        0 <= j,
    ensures
        item_len(s, j) > 0 <==> item_starts(s, j),
{
    if j + 2 <= s.len() {
        lemma_digit_run_at_least(s, j + 2, 8, 4);
    }
}

/// What an item that starts at `r` tells about the text around its end.
proof fn lemma_item_end_facts(s: Seq<char>, r: int)
    requires
        0 <= r,
        item_len(s, r) > 0,
    ensures
        ({
            let e = r + item_len(s, r);
            &&& item_code_at(s, r)
            &&& r + 6 <= e <= r + 10
            &&& e <= s.len()
            &&& forall|k: int| r + 2 <= k < e ==> decimal_digit(#[trigger] s[k])
            &&& (e < s.len() && decimal_digit(s[e]) ==> forall|k: int|
                e - 8 <= k < e ==> decimal_digit(#[trigger] s[k]))
        }),
{
    lemma_digit_run_bounds(s, r + 2, 8);
    lemma_digit_run_stops(s, r + 2, 8);
}

/// The list that continues at `q`, the end of an item starting at `r`, ends
/// at the end of an item, where no further `, item` follows.
proof fn lemma_item_list_end_is_item_end(s: Seq<char>, r: int, q: int) -> (r2: int)
    requires
        0 <= r,
        item_len(s, r) > 0,
        q == r + item_len(s, r),
    ensures
        r <= r2,
        item_len(s, r2) > 0,
        item_list_end(s, q) == r2 + item_len(s, r2),
        item_list_end(s, q) >= s.len() || next_item_end(s, item_list_end(s, q)) == item_list_end(s, q),
    decreases s.len() - q,
{
    lemma_item_len_bounds(s, r);
    if q >= s.len() {
        r
    } else {
        lemma_next_item_end_bounds(s, q);
        let e = next_item_end(s, q);
        if q < e {
            let c = q + ws_run(s, q);
            let r1 = c + 1 + ws_run(s, c + 1);
            lemma_ws_run_bounds(s, q);
            let r2 = lemma_item_list_end_is_item_end(s, r1, e);
            r2
        } else {
            r
        }
    }
}

/// No `, item` follows where the list stops.
proof fn lemma_no_continuation(s: Seq<char>, e: int, a: int, b: int)
    requires
        0 <= e <= s.len(),
        e >= s.len() || next_item_end(s, e) == e,
    ensures
        !continues_with(s, e, a, b),
{
    if continues_with(s, e, a, b) {
        lemma_ws_run_bounds(s, e);
        let c = e + ws_run(s, e);
        assert(!white_space(','));
        if a < c {
            assert(white_space(s[a]));
        }
        if a > c {
            assert(white_space(s[c]));
        }
        assert(a == c);
        lemma_ws_run_bounds(s, c + 1);
        let r = c + 1 + ws_run(s, c + 1);
        assert(!white_space('D') && !white_space('U'));
        if b < r {
            assert(white_space(s[b]));
        }
        if b > r {
            assert(white_space(s[r]));
        }
        assert(b == r);
        lemma_item_len_iff_starts(s, b);
        assert(next_item_end(s, e) == r + item_len(s, r));
    }
}

proof fn lemma_work_items_from_first(s: Seq<char>, i0: int) -> (i: int)
    requires
        0 <= i0,
        work_items_from(s, i0) is Some,
    ensures
        i0 <= i,
        item_len(s, i) > 0,
        forall|j: int| i0 <= j < i ==> item_len(s, j) == 0,
        work_items_from(s, i0) == Some(s.subrange(i, item_list_end(s, i + item_len(s, i)))),
    decreases s.len() - i0,
{
    if item_len(s, i0) > 0 {
        i0
    } else {
        let i = lemma_work_items_from_first(s, i0 + 1);
        i
    }
}

/// The work items found in a text are the first list of work items in it,
/// taken whole: it starts at the first work item of the text, ends with a
/// whole work item, and is not followed by a further `, item`.
pub proof fn law_work_items_first_whole_list(s: Seq<char>)
    requires
        work_items_from(s, 0) is Some,
    ensures
        exists|i: int| list_found_at(s, work_items_from(s, 0)->Some_0, i),
{
    let w = work_items_from(s, 0)->Some_0;
    let i = lemma_work_items_from_first(s, 0);
    lemma_item_len_bounds(s, i);
    let q = i + item_len(s, i);
    let r2 = lemma_item_list_end_is_item_end(s, i, q);
    let e = item_list_end(s, q);
    lemma_item_list_end_bounds(s, q);
    lemma_item_end_facts(s, r2);
    lemma_item_len_iff_starts(s, i);
    assert forall|j: int| 0 <= j < i implies !#[trigger] item_starts(s, j) by {
        lemma_item_len_iff_starts(s, j);
    }
    assert forall|a: int, b: int| !#[trigger] continues_with(s, e, a, b) by {
        lemma_no_continuation(s, e, a, b);
    }
    assert(w.len() == e - i);
    assert(item_code_at(s, r2));
    assert(list_found_at(s, w, i));
}

/// No work items are found exactly when no work item (`DE` or `US` and four
/// digits) starts anywhere in the text.
pub proof fn law_no_work_items_anywhere(s: Seq<char>)
    ensures
        work_items_from(s, 0) is None <==> forall|j: int| 0 <= j ==> !#[trigger] item_starts(s, j),
{
    law_no_work_items(s, 0);
    if work_items_from(s, 0) is None {
        assert forall|j: int| 0 <= j implies !#[trigger] item_starts(s, j) by {
            lemma_item_len_iff_starts(s, j);
        }
    } else {
        let i = lemma_work_items_from_first(s, 0);
        lemma_item_len_iff_starts(s, i);
    }
}

// ---------------------------------------------------------------------------
// Executable functions.
// ---------------------------------------------------------------------------

fn digit_run_exec(v: &Vec<char>, p: usize, cap: usize) -> (n: usize)
    requires
        p <= v.len(),
    ensures
        n == digit_run(v@, p as int, cap as nat),
        n <= cap,
        p + n <= v.len(),
{
    let mut k: usize = 0;
    proof {
        lemma_digit_run_bounds(v@, p as int, cap as nat);
    }
    while k < cap && p + k < v.len() && is_decimal_digit(v[p + k])
        invariant
            p <= v.len(),
            k <= cap,
            p + k <= v.len(),
            digit_run(v@, p as int, cap as nat) == k + digit_run(v@, (p + k) as int, (cap - k) as nat),
        decreases cap - k,
    {
        k = k + 1;
    }
    k
}

fn item_len_exec(v: &Vec<char>, p: usize) -> (n: usize)
    requires
        p <= v.len(),
    ensures
        n == item_len(v@, p as int),
        p + n <= v.len(),
{
    proof {
        lemma_item_len_bounds(v@, p as int);
    }
    if v.len() - p >= 2 && ((v[p] == 'D' && v[p + 1] == 'E') || (v[p] == 'U' && v[p + 1] == 'S')) {
        let d = digit_run_exec(v, p + 2, 8);
        if d >= 4 {
            return 2 + d;
        }
    }
    0
}

fn next_item_end_exec(v: &Vec<char>, q: usize) -> (e: usize)
    requires
        q <= v.len(),
    ensures
        e == next_item_end(v@, q as int),
        q <= e <= v.len(),
{
    proof {
        lemma_next_item_end_bounds(v@, q as int);
    }
    let c = skip_ws(v, q);
    if c < v.len() && v[c] == ',' {
        let r = skip_ws(v, c + 1);
        let n = item_len_exec(v, r);
        if n > 0 {
            return r + n;
        }
    }
    q
}

fn item_list_end_exec(v: &Vec<char>, q: usize) -> (e: usize)
    requires
        q <= v.len(),
    ensures
        e == item_list_end(v@, q as int),
        q <= e <= v.len(),
{
    let mut cur = q;
    proof {
        lemma_item_list_end_bounds(v@, q as int);
    }
    loop
        invariant
            q <= cur <= v.len(),
            item_list_end(v@, q as int) == item_list_end(v@, cur as int),
        decreases v.len() - cur,
    {
        if cur >= v.len() {
            return cur;
        }
        let e = next_item_end_exec(v, cur);
        if e > cur {
            cur = e;
        } else {
            return cur;
        }
    }
}

/// Locates the first list of work items in `v`.
fn find_work_items(v: &Vec<char>) -> (r: Option<(usize, usize)>)
    ensures
        match r {
            Some((a, b)) => a <= b <= v.len() && work_items_from(v@, 0) == Some(
                v@.subrange(a as int, b as int),
            ),
            None => work_items_from(v@, 0) is None,
        },
{
    let mut i: usize = 0;
    while i < v.len()
        invariant
            i <= v.len(),
            work_items_from(v@, 0) == work_items_from(v@, i as int),
        decreases v.len() - i,
    {
        let n = item_len_exec(v, i);
        if n > 0 {
            let e = item_list_end_exec(v, i + n);
            return Some((i, e));
        }
        i = i + 1;
    }
    None
}

/// The work items (`DE`/`US` numbers) that the text `s` refers to, upper-cased.
pub fn get_work_product(s: &str) -> (r: Option<String>)
    ensures
        match r {
            Some(w) => work_product_of(s@) == Some(w@),
            None => work_product_of(s@) is None,
        },
        is_ascii_text(s@) ==> match r {
            Some(w) => ascii_work_product(s@) == Some(w@),
            None => ascii_work_product(s@) is None,
        },
{
    let upper = to_uppercase(s);
    let v = chars_of(upper.as_str());
    match find_work_items(&v) {
        Some((a, b)) => Some(string_of(&v, a, b)),
        None => None,
    }
}

} // verus!

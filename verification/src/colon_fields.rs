//! The `Key: value` format of task comments.
//!
//! A field is found by its key (or one of several alternative keys) followed
//! by a colon, anywhere in the text; the value is what follows on the line,
//! after optional white space, and is trimmed.  This is the language of the
//! pattern `<key>:\s*(?P<v>.+?)((\r?\n)|$)` with leftmost-first matching:
//!
//! * the white space after the colon is taken greedily, line breaks included,
//!   so that a key with nothing after it on its line takes the next line;
//!   when only white space follows up to the end of the text, the value is
//!   the last character of it that is not `\n`, which trims to nothing;
//! * the value is at least one character long and ends before the first
//!   `\n` or `\r\n` after its first character, or at the end of the text.
//!
//! A list value is split at commas, each piece trimmed.

use vstd::prelude::*;
use crate::text::{
    chars_of, comma_list, lemma_ws_run_bounds, occurs_at, occurs_at_exec, skip_ws, split_commas,
    string_of, trim, trim_bounds, white_space, ws_run,
};

verus! {

// ---------------------------------------------------------------------------
// Specifications.
// ---------------------------------------------------------------------------

/// The texts of a list of keys.
pub open spec fn keys_view(keys: Seq<Vec<char>>) -> Seq<Seq<char>> {
    keys.map_values(|k: Vec<char>| k@)
}

/// The key `k` followed by `:` starts at `i`.
pub open spec fn key_colon_at(s: Seq<char>, k: Seq<char>, i: int) -> bool {
    occurs_at(s, k, i) && i + k.len() < s.len() && s[i + k.len()] == ':'
}

/// The last index in `[q, e)` whose character is not `\n`, or `-1`.
pub open spec fn last_non_newline(s: Seq<char>, q: int, e: int) -> int
    decreases e - q,
{
    if e <= q || e - 1 >= s.len() || e - 1 < 0 {
        -1
    } else if s[e - 1] != '\n' {
        e - 1
    } else {
        last_non_newline(s, q, e - 1)
    }
}

/// Where the value that follows a colon at `q - 1` starts, or `-1` when no
/// value can follow: the farthest point, up to the end of the white space,
/// whose character exists and is not `\n`.
pub open spec fn value_start(s: Seq<char>, q: int) -> int {
    let w = q + ws_run(s, q);
    last_non_newline(s, q, if w < s.len() { w + 1 } else { w })
}

/// The first line break (`\n`, or `\r` directly followed by `\n`) at or after
/// `k`, or the end of the text.
pub open spec fn line_end(s: Seq<char>, k: int) -> int
    decreases s.len() - k,
{
    if k < 0 || k >= s.len() {
        s.len() as int
    } else if s[k] == '\n' || (s[k] == '\r' && k + 1 < s.len() && s[k + 1] == '\n') {
        k
    } else {
        line_end(s, k + 1)
    }
}

/// The raw value that follows a colon at `q - 1`.
pub open spec fn value_after(s: Seq<char>, q: int) -> Option<Seq<char>> {
    let b = value_start(s, q);
    if b < 0 {
        None
    } else {
        Some(s.subrange(b, line_end(s, b + 1)))
    }
}

/// The raw value of a field at `i` whose key is the first of `keys[a..]`
/// that matches there.
pub open spec fn field_at(s: Seq<char>, keys: Seq<Seq<char>>, i: int, a: int) -> Option<
    Seq<char>,
>
    decreases keys.len() - a,
{
    if a < 0 || a >= keys.len() {
        None
    } else if key_colon_at(s, keys[a], i) && value_after(s, i + keys[a].len() + 1) is Some {
        value_after(s, i + keys[a].len() + 1)
    } else {
        field_at(s, keys, i, a + 1)
    }
}

/// The raw value of the first field in `s[i..]` with one of the `keys`.
pub open spec fn field_from(s: Seq<char>, keys: Seq<Seq<char>>, i: int) -> Option<Seq<char>>
    decreases s.len() - i,
{
    if i < 0 || i >= s.len() {
        None
    } else {
        match field_at(s, keys, i, 0) {
            Some(v) => Some(v),
            None => field_from(s, keys, i + 1),
        }
    }
}

/// The trimmed value of the first field of `s` with one of the `keys`.
pub open spec fn field_value(s: Seq<char>, keys: Seq<Seq<char>>) -> Option<Seq<char>> {
    match field_from(s, keys, 0) {
        Some(v) => Some(trim(v)),
        None => None,
    }
}

/// A text field: its value, or the empty text when it is absent.
pub open spec fn text_value(s: Seq<char>, keys: Seq<Seq<char>>) -> Seq<char> {
    match field_value(s, keys) {
        Some(v) => v,
        None => Seq::empty(),
    }
}

/// A list field: its comma-separated items, or no items when it is absent.
pub open spec fn list_value(s: Seq<char>, keys: Seq<Seq<char>>) -> Seq<Seq<char>> {
    match field_value(s, keys) {
        Some(v) => comma_list(v),
        None => Seq::empty(),
    }
}

/// An optional list field: its comma-separated items, when it is present.
pub open spec fn opt_list_value(s: Seq<char>, keys: Seq<Seq<char>>) -> Option<Seq<Seq<char>>> {
    match field_value(s, keys) {
        Some(v) => Some(comma_list(v)),
        None => None,
    }
}

// ---------------------------------------------------------------------------
// Lemmas and laws.
// ---------------------------------------------------------------------------

proof fn lemma_last_non_newline(s: Seq<char>, q: int, e: int)
    requires
        0 <= q <= e <= s.len(),
    ensures
        last_non_newline(s, q, e) == -1 || (q <= last_non_newline(s, q, e) < e
            && s[last_non_newline(s, q, e)] != '\n'),
    decreases e - q,
{
    if e > q && s[e - 1] == '\n' {
        lemma_last_non_newline(s, q, e - 1);
    }
}

proof fn lemma_line_end(s: Seq<char>, k: int)
    requires
        0 <= k <= s.len(),
    ensures
        k <= line_end(s, k) <= s.len(),
        forall|j: int| k <= j < line_end(s, k) ==> #[trigger] s[j] != '\n',
    decreases s.len() - k,
{
    if k < s.len() && !(s[k] == '\n' || (s[k] == '\r' && k + 1 < s.len() && s[k + 1] == '\n')) {
        lemma_line_end(s, k + 1);
    }
}

proof fn lemma_value_after(s: Seq<char>, q: int)
    requires
        0 <= q <= s.len(),
    ensures
        value_after(s, q) is Some ==> ({
            let b = value_start(s, q);
            &&& q <= b < s.len()
            &&& b + 1 <= line_end(s, b + 1) <= s.len()
            &&& s[b] != '\n'
        }),
{
    lemma_ws_run_bounds(s, q);
    let w = q + ws_run(s, q);
    lemma_last_non_newline(s, q, if w < s.len() { w + 1 } else { w });
    let b = value_start(s, q);
    if b >= 0 {
        lemma_line_end(s, b + 1);
    }
}

/// A field value never spans two lines: it holds no `\n`.
pub proof fn law_value_is_one_line(s: Seq<char>, keys: Seq<Seq<char>>, i: int)
    requires
        0 <= i,
        field_from(s, keys, i) is Some,
    ensures
        forall|j: int|
            0 <= j < field_from(s, keys, i)->Some_0.len() ==> #[trigger] field_from(
                s,
                keys,
                i,
            )->Some_0[j] != '\n',
    decreases s.len() - i,
{
    if i < s.len() {
        if field_at(s, keys, i, 0) is Some {
            lemma_field_at_one_line(s, keys, i, 0);
        } else {
            law_value_is_one_line(s, keys, i + 1);
        }
    }
}

proof fn lemma_field_at_one_line(s: Seq<char>, keys: Seq<Seq<char>>, i: int, a: int)
    requires
        0 <= i,
        0 <= a,
        field_at(s, keys, i, a) is Some,
    ensures
        forall|j: int|
            0 <= j < field_at(s, keys, i, a)->Some_0.len() ==> #[trigger] field_at(
                s,
                keys,
                i,
                a,
            )->Some_0[j] != '\n',
    decreases keys.len() - a,
{
    if a < keys.len() {
        if key_colon_at(s, keys[a], i) && value_after(s, i + keys[a].len() + 1) is Some {
            let q = i + keys[a].len() + 1;
            lemma_value_after(s, q);
            let b = value_start(s, q);
            lemma_line_end(s, b + 1);
            let v = s.subrange(b, line_end(s, b + 1));
            assert forall|j: int| 0 <= j < v.len() implies #[trigger] v[j] != '\n' by {
                assert(v[j] == s[b + j]);
            }
        } else {
            lemma_field_at_one_line(s, keys, i, a + 1);
        }
    }
}

/// A field is absent exactly when no key of it, followed by a colon and a
/// value, occurs in the text.
pub proof fn law_field_absent(s: Seq<char>, keys: Seq<Seq<char>>, i: int)
    requires
        0 <= i,
    ensures
        field_from(s, keys, i) is None <==> forall|j: int, a: int|
            i <= j && 0 <= a < keys.len() ==> !(#[trigger] key_colon_at(s, keys[a], j)
                && value_after(s, j + keys[a].len() + 1) is Some),
    decreases s.len() - i,
{
    if i < s.len() {
        law_field_absent(s, keys, i + 1);
        lemma_field_at_none(s, keys, i, 0);
        if field_from(s, keys, i) is None {
            assert forall|j: int, a: int| i <= j && 0 <= a < keys.len() implies !(
            #[trigger] key_colon_at(s, keys[a], j) && value_after(s, j + keys[a].len() + 1) is Some) by {
                if j == i {
                } else {
                }
            }
        }
    } else {
        assert forall|j: int, a: int| i <= j && 0 <= a < keys.len() implies !(
        #[trigger] key_colon_at(s, keys[a], j) && value_after(s, j + keys[a].len() + 1) is Some) by {
        }
    }
}

proof fn lemma_field_at_none(s: Seq<char>, keys: Seq<Seq<char>>, i: int, a: int)
    requires
        0 <= a,
    ensures
        field_at(s, keys, i, a) is None <==> forall|b: int|
            a <= b < keys.len() ==> !(#[trigger] key_colon_at(s, keys[b], i) && value_after(
                s,
                i + keys[b].len() + 1,
            ) is Some),
    decreases keys.len() - a,
{
    if a < keys.len() {
        lemma_field_at_none(s, keys, i, a + 1);
        if !(key_colon_at(s, keys[a], i) && value_after(s, i + keys[a].len() + 1) is Some) {
            assert forall|b: int| a <= b < keys.len() && (forall|c: int|
                a + 1 <= c < keys.len() ==> !(#[trigger] key_colon_at(s, keys[c], i)
                    && value_after(s, i + keys[c].len() + 1) is Some)) implies !(key_colon_at(
                s,
                keys[b],
                i,
            ) && value_after(s, i + keys[b].len() + 1) is Some) by {
                if b > a {
                }
            }
        }
    }
}


proof fn lemma_ws_run_exact(s: Seq<char>, p: int, n: int)
    requires
        0 <= p,
        0 <= n,
        p + n < s.len(),
        forall|j: int| p <= j < p + n ==> white_space(#[trigger] s[j]),
        !white_space(s[p + n]),
    ensures
        ws_run(s, p) == n,
    decreases n,
{
    if n > 0 {
        lemma_ws_run_exact(s, p + 1, n - 1);
    }
}

proof fn lemma_line_end_exact(s: Seq<char>, k: int, e: int)
    requires
        0 <= k <= e < s.len(),
        s[e] == '\n',
        forall|j: int| k <= j < e ==> #[trigger] s[j] != '\n' && s[j] != '\r',
    ensures
        line_end(s, k) == e,
    decreases e - k,
{
    if k < e {
        lemma_line_end_exact(s, k + 1, e);
    }
}

proof fn lemma_field_from_skips(s: Seq<char>, keys: Seq<Seq<char>>, i: int, m: int)
    requires
        0 <= i <= m < s.len(),
        forall|j: int| i <= j < m ==> #[trigger] field_at(s, keys, j, 0) is None,
    ensures
        field_from(s, keys, i) == field_from(s, keys, m),
    decreases m - i,
{
    if i < m {
        lemma_field_from_skips(s, keys, i + 1, m);
    }
}

/// The field with key `k` of a text `p + k + ":" + w + v + "\n" + rest`,
/// where `k:` does not occur in `p`, `w` is white space, and `v` is one line
/// (no `\n`, no `\r`) that starts with a character other than white space,
/// is `v` trimmed.
pub proof fn law_field_on_its_line(
    p: Seq<char>,
    k: Seq<char>,
    w: Seq<char>,
    v: Seq<char>,
    rest: Seq<char>,
)
    requires
        v.len() > 0,
        !white_space(v[0]),
        forall|j: int| 0 <= j < w.len() ==> white_space(#[trigger] w[j]),
        forall|j: int| 0 <= j < v.len() ==> #[trigger] v[j] != '\n' && v[j] != '\r',
        forall|j: int|
            0 <= j < p.len() ==> !#[trigger] key_colon_at(
                p + k + seq![':'] + w + v + seq!['\n'] + rest,
                k,
                j,
            ),
    ensures
        field_value(p + k + seq![':'] + w + v + seq!['\n'] + rest, seq![k]) == Some(trim(v)),
{
    let s = p + k + seq![':'] + w + v + seq!['\n'] + rest;
    let keys = seq![k];
    let i = p.len() as int;
    let q = i + k.len() + 1;
    let b = q + w.len();
    let e = b + v.len();
    assert(s.subrange(i, i + k.len()) =~= k);
    assert(key_colon_at(s, k, i));
    assert forall|j: int| q <= j < b implies white_space(#[trigger] s[j]) by {
        assert(s[j] == w[j - q]);
    }
    assert(s[b] == v[0]);
    lemma_ws_run_exact(s, q, w.len() as int);
    assert(value_start(s, q) == b);
    assert(s[e] == '\n');
    assert forall|j: int| b + 1 <= j < e implies #[trigger] s[j] != '\n' && s[j] != '\r' by {
        assert(s[j] == v[j - b]);
    }
    lemma_line_end_exact(s, b + 1, e);
    assert(s.subrange(b, e) =~= v);
    assert(value_after(s, q) == Some(v));
    assert(field_at(s, keys, i, 0) == Some(v));
    assert forall|j: int| 0 <= j < i implies #[trigger] field_at(s, keys, j, 0) is None by {
        assert(keys[0] == k);
        assert(!key_colon_at(s, k, j));
        assert(field_at(s, keys, j, 1) is None);
    }
    lemma_field_from_skips(s, keys, 0, i);
}

// ---------------------------------------------------------------------------
// Executable functions.
// ---------------------------------------------------------------------------

fn key_colon_at_exec(v: &Vec<char>, k: &Vec<char>, i: usize) -> (r: bool)
    ensures
        r == key_colon_at(v@, k@, i as int),
{
    occurs_at_exec(v, k, i) && k.len() < v.len() - i && v[i + k.len()] == ':'
}

fn value_after_exec(v: &Vec<char>, q: usize) -> (r: Option<(usize, usize)>)
    requires
        q <= v.len(),
    ensures
        match r {
            Some((b, e)) => b <= e <= v.len() && value_after(v@, q as int) == Some(
                v@.subrange(b as int, e as int),
            ),
            None => value_after(v@, q as int) is None,
        },
{
    proof {
        lemma_value_after(v@, q as int);
    }
    let w = skip_ws(v, q);
    let top = if w < v.len() { w + 1 } else { w };
    let mut e = top;
    assert(value_start(v@, q as int) == last_non_newline(v@, q as int, top as int));
    loop
        invariant
            q <= e <= top <= v.len(),
            value_start(v@, q as int) == last_non_newline(v@, q as int, top as int),
            last_non_newline(v@, q as int, top as int) == last_non_newline(v@, q as int, e as int),
        ensures
            q < e <= v.len(),
            v@[e - 1] != '\n',
            last_non_newline(v@, q as int, top as int) == e - 1,
            value_start(v@, q as int) == e - 1,
        decreases e,
    {
        if e <= q {
            return None;
        }
        if v[e - 1] != '\n' {
            break;
        }
        e = e - 1;
    }
    let b = e - 1;
    let mut k = b + 1;
    loop
        invariant
            b < v.len(),
            b + 1 <= k <= v.len(),
            b as int == value_start(v@, q as int),
            line_end(v@, (b + 1) as int) == line_end(v@, k as int),
        ensures
            b + 1 <= k <= v.len(),
            b as int == value_start(v@, q as int),
            line_end(v@, (b + 1) as int) == k,
        decreases v.len() - k,
    {
        if k >= v.len() {
            break;
        }
        if v[k] == '\n' || (v[k] == '\r' && k + 1 < v.len() && v[k + 1] == '\n') {
            break;
        }
        k = k + 1;
    }
    Some((b, k))
}

fn field_at_exec(v: &Vec<char>, keys: &Vec<Vec<char>>, i: usize) -> (r: Option<(usize, usize)>)
    requires
        i <= v.len(),
    ensures
        match r {
            Some((b, e)) => b <= e <= v.len() && field_at(v@, keys_view(keys@), i as int, 0)
                == Some(v@.subrange(b as int, e as int)),
            None => field_at(v@, keys_view(keys@), i as int, 0) is None,
        },
{
    let ghost ks = keys_view(keys@);
    let mut a: usize = 0;
    while a < keys.len()
        invariant
            i <= v.len(),
            a <= keys.len(),
            ks == keys_view(keys@),
            ks.len() == keys.len(),
            field_at(v@, ks, i as int, 0) == field_at(v@, ks, i as int, a as int),
        decreases keys.len() - a,
    {
        let k = &keys[a];
        assert(ks[a as int] == k@);
        if key_colon_at_exec(v, k, i) {
            let r = value_after_exec(v, i + k.len() + 1);
            if r.is_some() {
                return r;
            }
        }
        a = a + 1;
    }
    None
}

fn field_bounds(v: &Vec<char>, keys: &Vec<Vec<char>>) -> (r: Option<(usize, usize)>)
    ensures
        match r {
            Some((b, e)) => b <= e <= v.len() && field_from(v@, keys_view(keys@), 0) == Some(
                v@.subrange(b as int, e as int),
            ),
            None => field_from(v@, keys_view(keys@), 0) is None,
        },
{
    let ghost ks = keys_view(keys@);
    let mut i: usize = 0;
    while i < v.len()
        invariant
            i <= v.len(),
            ks == keys_view(keys@),
            field_from(v@, ks, 0) == field_from(v@, ks, i as int),
        decreases v.len() - i,
    {
        let r = field_at_exec(v, keys, i);
        if r.is_some() {
            return r;
        }
        i = i + 1;
    }
    None
}

/// The keys of a field known by one key.
pub fn one_key(k: &str) -> (r: Vec<Vec<char>>)
    ensures
        keys_view(r@) == seq![k@],
{
    let r = vec![chars_of(k)];
    assert(keys_view(r@) =~= seq![k@]);
    r
}

/// The keys of a field known by either of two keys, `k1` tried first.
pub fn two_keys(k1: &str, k2: &str) -> (r: Vec<Vec<char>>)
    ensures
        keys_view(r@) == seq![k1@, k2@],
{
    let r = vec![chars_of(k1), chars_of(k2)];
    assert(keys_view(r@) =~= seq![k1@, k2@]);
    r
}

/// The trimmed value of the first field of `v` with one of the `keys`.
pub fn get_opt_text(v: &Vec<char>, keys: &Vec<Vec<char>>) -> (r: Option<String>)
    ensures
        match r {
            Some(t) => field_value(v@, keys_view(keys@)) == Some(t@),
            None => field_value(v@, keys_view(keys@)) is None,
        },
{
    match field_bounds(v, keys) {
        Some((b, e)) => {
            let (x, y) = trim_bounds(v, b, e);
            Some(string_of(v, x, y))
        },
        None => None,
    }
}

/// A text field of `v`: its trimmed value, or the empty text.
pub fn get_text(v: &Vec<char>, keys: &Vec<Vec<char>>) -> (r: String)
    ensures
        r@ == text_value(v@, keys_view(keys@)),
{
    match get_opt_text(v, keys) {
        Some(t) => t,
        None => String::new(),
    }
}

/// An optional list field of `v`: its comma-separated items, when present.
pub fn get_opt_list(v: &Vec<char>, keys: &Vec<Vec<char>>) -> (r: Option<Vec<String>>)
    ensures
        match r {
            Some(l) => opt_list_value(v@, keys_view(keys@)) == Some(l.deep_view()),
            None => opt_list_value(v@, keys_view(keys@)) is None,
        },
{
    match field_bounds(v, keys) {
        Some((b, e)) => {
            let (x, y) = trim_bounds(v, b, e);
            Some(split_commas(v, x, y))
        },
        None => None,
    }
}

/// A list field of `v`: its comma-separated items, or none.
pub fn get_list(v: &Vec<char>, keys: &Vec<Vec<char>>) -> (r: Vec<String>)
    ensures
        r.deep_view() == list_value(v@, keys_view(keys@)),
{
    match get_opt_list(v, keys) {
        Some(l) => l,
        None => {
            let l: Vec<String> = Vec::new();
            assert(l.deep_view() =~= Seq::<Seq<char>>::empty());
            l
        },
    }
}

} // verus!

//! Character-level text utilities with their specifications.
//!
//! Text is handled as a vector of `char`s, viewed as `Seq<char>`.  The
//! gateway's patterns use two Unicode character classes: white space (the
//! `White_Space` property, written out here) and decimal digits (category
//! `Nd`, taken from the `regex` crate for characters outside ASCII).
//! Unicode upper-casing comes from std through a small trusted wrapper.

use vstd::prelude::*;

verus! {

broadcast use vstd::string::group_string_axioms;

// ---------------------------------------------------------------------------
// Character classes and case mapping.
// ---------------------------------------------------------------------------

/// Whether `c` has the Unicode `White_Space` property (what
/// `char::is_whitespace` tests and what the `\s` class of the `regex` crate
/// matches): `\t` to `\r`, space, U+0085, U+00A0, U+1680, U+2000 to U+200A,
/// U+2028, U+2029, U+202F, U+205F and U+3000.
pub open spec fn white_space(c: char) -> bool {
    let u = c as u32;
    ||| 0x09 <= u <= 0x0D
    ||| u == 0x20
    ||| u == 0x85
    ||| u == 0xA0
    ||| u == 0x1680
    ||| 0x2000 <= u <= 0x200A
    ||| u == 0x2028
    ||| u == 0x2029
    ||| u == 0x202F
    ||| u == 0x205F
    ||| u == 0x3000
}

/// Whether the `regex` crate's `\d` class (Unicode category `Nd`) matches `c`.
pub uninterp spec fn regex_digit(c: char) -> bool;

/// Whether `c` is a Unicode decimal digit: `0` to `9` among ASCII characters,
/// as the `regex` crate's `\d` says for the others.
pub open spec fn decimal_digit(c: char) -> bool {
    if (c as u32) < 128 {
        '0' <= c && c <= '9'
    } else {
        regex_digit(c)
    }
}

/// The Unicode upper-case mapping of a whole string.
pub uninterp spec fn uppercase(s: Seq<char>) -> Seq<char>;

/// Every character of `s` is ASCII.
pub open spec fn is_ascii_text(s: Seq<char>) -> bool {
    forall|i: int| 0 <= i < s.len() ==> (#[trigger] s[i] as u32) < 128
}

/// `c` with `a` to `z` mapped to `A` to `Z`.
pub open spec fn ascii_upper_char(c: char) -> char {
    if 'a' <= c && c <= 'z' {
        ((c as u32) - 32) as char
    } else {
        c
    }
}

/// `c` with `A` to `Z` mapped to `a` to `z`.
pub open spec fn ascii_lower_char(c: char) -> char {
    if 'A' <= c && c <= 'Z' {
        ((c as u32) + 32) as char
    } else {
        c
    }
}

/// `s` with its ASCII letters upper-cased.
pub open spec fn ascii_upper(s: Seq<char>) -> Seq<char> {
    s.map_values(|c: char| ascii_upper_char(c))
}

/// `s` with its ASCII letters lower-cased.
pub open spec fn ascii_lower(s: Seq<char>) -> Seq<char> {
    s.map_values(|c: char| ascii_lower_char(c))
}

/// Whether `c` has the `White_Space` property.
pub fn is_white_space(c: char) -> (r: bool)
    ensures
        r == white_space(c),
{
    let u = c as u32;
    (0x09 <= u && u <= 0x0D) || u == 0x20 || u == 0x85 || u == 0xA0 || u == 0x1680 || (0x2000
        <= u && u <= 0x200A) || u == 0x2028 || u == 0x2029 || u == 0x202F || u == 0x205F || u
        == 0x3000
}

/// Calls `regex::Regex::is_match` with the pattern `\A\d\z` on the
/// one-character string `c`; the `regex` crate documents `\d` as the Unicode
/// class `Nd`.  Claimed: the result is the named class; nothing else.
#[verifier::external_body]
fn regex_is_digit(c: char) -> (r: bool)
    ensures
        r == regex_digit(c),
{
    let mut buf = [0u8;4];
    regex::Regex::new(r"\A\d\z").unwrap().is_match(c.encode_utf8(&mut buf))
}

/// Whether `c` is a decimal digit; the `regex` crate is asked only about
/// characters outside ASCII.
pub fn is_decimal_digit(c: char) -> (r: bool)
    ensures
        r == decimal_digit(c),
{
    if (c as u32) < 128 {
        '0' <= c && c <= '9'
    } else {
        regex_is_digit(c)
    }
}

/// Calls `str::to_uppercase`, std's locale-independent Unicode upper-casing.
/// Claimed: the result is the named mapping of the argument, and on ASCII text
/// it maps `a` to `z` to `A` to `Z` and keeps every other character (the
/// Unicode mapping of ASCII letters, as `char::to_ascii_uppercase` also
/// documents).
#[verifier::external_body]
pub(crate) fn to_uppercase(s: &str) -> (r: String)
    ensures
        r@ == uppercase(s@),
        is_ascii_text(s@) ==> r@ == ascii_upper(s@),
{
    s.to_uppercase()
}

/// Upper-casing ASCII text gives the same result whether or not its letters
/// were lower-cased first, and lower-casing keeps text ASCII.
pub proof fn law_ascii_case(s: Seq<char>)
    requires
        is_ascii_text(s),
    ensures
        is_ascii_text(ascii_lower(s)),
        ascii_upper(ascii_lower(s)) == ascii_upper(s),
{
    assert forall|i: int| 0 <= i < s.len() implies (#[trigger] ascii_lower(s)[i] as u32) < 128 by {
        assert(ascii_lower(s)[i] == ascii_lower_char(s[i]));
    }
    assert forall|i: int| 0 <= i < s.len() implies #[trigger] ascii_upper(ascii_lower(s))[i]
        == ascii_upper(s)[i] by {
        let c = s[i];
        assert(ascii_lower(s)[i] == ascii_lower_char(c));
        if 'A' <= c && c <= 'Z' {
            assert((((c as u32) + 32) as char) as u32 == (c as u32) + 32);
        }
    }
    assert(ascii_upper(ascii_lower(s)) =~= ascii_upper(s));
}

/// Calls `String::push`, which appends one character.
#[verifier::external_body]
pub(crate) fn push_char(s: &mut String, c: char)
    ensures
        final(s)@ == old(s)@.push(c),
{
    s.push(c)
}

// ---------------------------------------------------------------------------
// Specifications.
// ---------------------------------------------------------------------------

/// The text of an optional string.
pub open spec fn opt_view(o: Option<String>) -> Option<Seq<char>> {
    match o {
        Some(s) => Some(s@),
        None => None,
    }
}

/// The text of an optional string slice.
pub open spec fn opt_str_view(o: Option<&str>) -> Option<Seq<char>> {
    match o {
        Some(s) => Some(s@),
        None => None,
    }
}

/// The text of a list of strings.
pub open spec fn opt_list_view(o: Option<Vec<String>>) -> Option<Seq<Seq<char>>> {
    match o {
        Some(v) => Some(v.deep_view()),
        None => None,
    }
}

/// `n` occurs in `h` starting at index `i`.
pub open spec fn occurs_at(h: Seq<char>, n: Seq<char>, i: int) -> bool {
    0 <= i && i + n.len() <= h.len() && h.subrange(i, i + n.len()) =~= n
}

/// `n` occurs somewhere in `h` (the empty text occurs everywhere).
pub open spec fn contains_seq(h: Seq<char>, n: Seq<char>) -> bool {
    exists|i: int| occurs_at(h, n, i)
}

/// Number of consecutive white-space characters of `s` starting at `p`.
pub open spec fn ws_run(s: Seq<char>, p: int) -> nat
    decreases s.len() - p,
{
    if p < 0 || p >= s.len() {
        0
    } else if white_space(s[p]) {
        1 + ws_run(s, p + 1)
    } else {
        0
    }
}

/// Number of consecutive white-space characters of `s` ending just before `e`.
pub open spec fn ws_run_back(s: Seq<char>, e: int) -> nat
    decreases e,
{
    if e <= 0 || e > s.len() {
        0
    } else if white_space(s[e - 1]) {
        1 + ws_run_back(s, e - 1)
    } else {
        0
    }
}

/// `s` without its leading and trailing white space (`str::trim`).
pub open spec fn trim(s: Seq<char>) -> Seq<char> {
    let a = ws_run(s, 0);
    if a >= s.len() {
        Seq::empty()
    } else {
        s.subrange(a as int, s.len() - ws_run_back(s, s.len() as int))
    }
}

/// `s` with every occurrence of `c` removed.
pub open spec fn without_char(s: Seq<char>, c: char) -> Seq<char>
    decreases s.len(),
{
    if s.len() == 0 {
        Seq::empty()
    } else {
        let r = without_char(s.drop_last(), c);
        if s.last() == c {
            r
        } else {
            r.push(s.last())
        }
    }
}

/// The pieces of `s[i..]` separated by `','`, the first piece being prefixed
/// by `cur` (`str::split(',')` when started at `0` with an empty `cur`).
pub open spec fn comma_pieces(s: Seq<char>, i: int, cur: Seq<char>) -> Seq<Seq<char>>
    decreases s.len() - i,
{
    if i < 0 || i >= s.len() {
        seq![cur]
    } else if s[i] == ',' {
        seq![cur] + comma_pieces(s, i + 1, Seq::empty())
    } else {
        comma_pieces(s, i + 1, cur.push(s[i]))
    }
}

/// The pieces of `s` separated by commas, each with surrounding white space
/// removed.
pub open spec fn comma_list(s: Seq<char>) -> Seq<Seq<char>> {
    trim_all(comma_pieces(s, 0, Seq::empty()))
}

/// Every piece of `ps`, trimmed.
pub open spec fn trim_all(ps: Seq<Seq<char>>) -> Seq<Seq<char>> {
    ps.map_values(|p: Seq<char>| trim(p))
}

// ---------------------------------------------------------------------------
// Lemmas.
// ---------------------------------------------------------------------------

proof fn lemma_ws_run_step(s: Seq<char>, p: int)
    requires
        0 <= p < s.len(),
        white_space(s[p]),
    ensures
        ws_run(s, p) == 1 + ws_run(s, p + 1),
{
}

/// A white-space run never passes the end of the text, and the character just
/// after it (if any) is not white space.
pub proof fn lemma_ws_run_bounds(s: Seq<char>, p: int)
    requires
        0 <= p <= s.len(),
    ensures
        p + ws_run(s, p) <= s.len(),
        p + ws_run(s, p) < s.len() ==> !white_space(s[p + ws_run(s, p)]),
        forall|k: int| p <= k < p + ws_run(s, p) ==> white_space(#[trigger] s[k]),
    decreases s.len() - p,
{
    if p < s.len() && white_space(s[p]) {
        lemma_ws_run_bounds(s, p + 1);
    }
}

// ---------------------------------------------------------------------------
// Executable functions.
// ---------------------------------------------------------------------------

/// The characters of `s`, in order.
pub fn chars_of(s: &str) -> (v: Vec<char>)
    ensures
        v@ == s@,
{
    let mut v: Vec<char> = Vec::new();
    for c in it: s.chars()
        invariant
            v@ == it.seq().take(it.index()),
    {
        v.push(c);
    }
    v
}

/// A string holding `v[from..to]`.
pub fn string_of(v: &Vec<char>, from: usize, to: usize) -> (s: String)
    requires
        from <= to <= v.len(),
    ensures
        s@ == v@.subrange(from as int, to as int),
{
    let mut s = String::new();
    let mut i = from;
    while i < to
        invariant
            from <= i <= to <= v.len(),
            s@ == v@.subrange(from as int, i as int),
        decreases to - i,
    {
        push_char(&mut s, v[i]);
        i = i + 1;
        assert(s@ =~= v@.subrange(from as int, i as int));
    }
    s
}

/// Whether `n` occurs in `h` at index `i`.
pub fn occurs_at_exec(h: &Vec<char>, n: &Vec<char>, i: usize) -> (r: bool)
    ensures
        r == occurs_at(h@, n@, i as int),
{
    if i > h.len() || n.len() > h.len() - i {
        return false;
    }
    let mut k: usize = 0;
    while k < n.len()
        invariant
            i + n.len() <= h.len(),
            k <= n.len(),
            forall|j: int| 0 <= j < k ==> h@[i + j] == n@[j],
        decreases n.len() - k,
    {
        if h[i + k] != n[k] {
            assert(h@.subrange(i as int, i + n.len())[k as int] != n@[k as int]);
            return false;
        }
        k = k + 1;
    }
    assert(h@.subrange(i as int, i + n.len()) =~= n@);
    true
}

/// Whether `n` occurs somewhere in `h`.
pub fn contains_exec(h: &Vec<char>, n: &Vec<char>) -> (r: bool)
    ensures
        r == contains_seq(h@, n@),
{
    if n.len() > h.len() {
        assert forall|i: int| !occurs_at(h@, n@, i) by {}
        return false;
    }
    let mut i: usize = 0;
    while i <= h.len() - n.len()
        invariant
            n.len() <= h.len(),
            i <= h.len() - n.len() + 1,
            forall|j: int| 0 <= j < i ==> !occurs_at(h@, n@, j),
        decreases h.len() - n.len() + 1 - i,
    {
        if occurs_at_exec(h, n, i) {
            return true;
        }
        i = i + 1;
    }
    assert forall|j: int| !occurs_at(h@, n@, j) by {
        if 0 <= j < i {
        }
    }
    false
}

/// Whether the texts `a` and `b` are equal.
pub fn str_eq(a: &str, b: &str) -> (r: bool)
    ensures
        r == (a@ == b@),
{
    let x = chars_of(a);
    let y = chars_of(b);
    if x.len() != y.len() {
        return false;
    }
    let r = occurs_at_exec(&x, &y, 0);
    assert(r ==> x@.subrange(0, y@.len() as int) =~= x@);
    r
}

/// The index just past the white-space run of `v` that starts at `p`.
pub fn skip_ws(v: &Vec<char>, p: usize) -> (q: usize)
    requires
        p <= v.len(),
    ensures
        q == p + ws_run(v@, p as int),
        q <= v.len(),
{
    let mut q = p;
    proof {
        lemma_ws_run_bounds(v@, p as int);
    }
    while q < v.len() && is_white_space(v[q])
        invariant
            p <= q <= v.len(),
            ws_run(v@, p as int) == (q - p) + ws_run(v@, q as int),
        decreases v.len() - q,
    {
        proof {
            lemma_ws_run_step(v@, q as int);
        }
        q = q + 1;
    }
    q
}

/// Bounds of `v[from..to]` without its leading and trailing white space.
pub fn trim_bounds(v: &Vec<char>, from: usize, to: usize) -> (r: (usize, usize))
    requires
        from <= to <= v.len(),
    ensures
        from <= r.0 <= r.1 <= to,
        v@.subrange(r.0 as int, r.1 as int) == trim(v@.subrange(from as int, to as int)),
{
    let ghost t = v@.subrange(from as int, to as int);
    let mut a = from;
    while a < to && is_white_space(v[a])
        invariant
            from <= a <= to <= v.len(),
            t == v@.subrange(from as int, to as int),
            ws_run(t, 0) == (a - from) + ws_run(t, a - from),
        decreases to - a,
    {
        proof {
            lemma_ws_run_step(t, a - from);
        }
        a = a + 1;
    }
    proof {
        lemma_ws_run_bounds(t, a - from);
    }
    if a == to {
        assert(v@.subrange(a as int, a as int) =~= trim(t));
        return (a, a);
    }
    let mut e = to;
    while e > a && is_white_space(v[e - 1])
        invariant
            from <= a < to <= v.len(),
            a < e <= to,
            !white_space(v@[a as int]),
            t == v@.subrange(from as int, to as int),
            ws_run_back(t, t.len() as int) == (to - e) + ws_run_back(t, e - from),
        decreases e,
    {
        proof {
            assert(t[e - from - 1] == v@[e - 1]);
        }
        e = e - 1;
    }
    proof {
        assert(t[a - from] == v@[a as int]);
        assert(t[e - from - 1] == v@[e - 1]);
        assert(ws_run(t, a - from) == 0);
        assert(ws_run_back(t, e - from) == 0);
        assert(v@.subrange(a as int, e as int) =~= trim(t));
    }
    (a, e)
}

/// `v[from..to]` without leading and trailing white space, as a string.
pub fn trim_range(v: &Vec<char>, from: usize, to: usize) -> (s: String)
    requires
        from <= to <= v.len(),
    ensures
        s@ == trim(v@.subrange(from as int, to as int)),
{
    let (a, e) = trim_bounds(v, from, to);
    string_of(v, a, e)
}

/// `s` with every `'\\'` removed (`str::replace('\\', "")`).
pub fn remove_backslashes(v: &Vec<char>, from: usize, to: usize) -> (s: String)
    requires
        from <= to <= v.len(),
    ensures
        s@ == without_char(v@.subrange(from as int, to as int), '\\'),
{
    let ghost t = v@.subrange(from as int, to as int);
    let mut s = String::new();
    let mut i = from;
    assert(t.take(0) =~= Seq::<char>::empty());
    while i < to
        invariant
            from <= i <= to <= v.len(),
            t == v@.subrange(from as int, to as int),
            s@ == without_char(t.take(i - from), '\\'),
        decreases to - i,
    {
        assert(t.take(i - from + 1).drop_last() =~= t.take(i - from));
        if v[i] != '\\' {
            push_char(&mut s, v[i]);
        }
        i = i + 1;
    }
    assert(t.take(to - from) =~= t);
    s
}

/// The comma-separated pieces of `v[from..to]`, each trimmed
/// (`split(',')` followed by `trim` on each piece).
pub fn split_commas(v: &Vec<char>, from: usize, to: usize) -> (r: Vec<String>)
    requires
        from <= to <= v.len(),
    ensures
        r.deep_view() == comma_list(v@.subrange(from as int, to as int)),
{
    let ghost t = v@.subrange(from as int, to as int);
    let ghost all = comma_pieces(t, 0, Seq::empty());
    let mut done: Vec<String> = Vec::new();
    let ghost mut done_raw: Seq<Seq<char>> = Seq::empty();
    let mut start = from;
    let mut i = from;
    assert(v@.subrange(from as int, from as int) =~= Seq::<char>::empty());
    assert(done.deep_view() =~= trim_all(done_raw));
    while i < to
        invariant
            from <= start <= i <= to <= v.len(),
            t == v@.subrange(from as int, to as int),
            all == comma_pieces(t, 0, Seq::empty()),
            all == done_raw + comma_pieces(t, i - from, v@.subrange(start as int, i as int)),
            done.deep_view() == trim_all(done_raw),
            done@.len() == done_raw.len(),
        decreases to - i,
    {
        let ghost cur = v@.subrange(start as int, i as int);
        if v[i] == ',' {
            let piece = trim_range(v, start, i);
            let ghost old_done = done@;
            let ghost old_dv = done.deep_view();
            let ghost old_raw = done_raw;
            proof {
                done_raw = done_raw.push(cur);
                assert(seq![cur] + comma_pieces(t, i - from + 1, Seq::empty())
                    == comma_pieces(t, i - from, cur));
                assert(done_raw + comma_pieces(t, i - from + 1, Seq::empty())
                    =~= done_raw.drop_last() + (seq![cur] + comma_pieces(t, i - from + 1, Seq::empty())));
            }
            done.push(piece);
            proof {
                assert forall|k: int| 0 <= k < done.len() implies
                    done.deep_view()[k] == trim_all(done_raw)[k] by {
                    if k < old_done.len() {
                        assert(done@[k] == old_done[k]);
                        assert(old_raw[k] == done_raw[k]);
                        assert(old_dv[k] == old_done[k].deep_view());
                        assert(old_dv[k] == trim_all(old_raw)[k]);
                    } else {
                        assert(done@[k] == piece);
                        assert(done_raw[k] == cur);
                    }
                }
                assert(done.deep_view() =~= trim_all(done_raw));
                assert(v@.subrange((i + 1) as int, (i + 1) as int) =~= Seq::<char>::empty());
            }
            start = i + 1;
        } else {
            proof {
                assert(v@.subrange(start as int, (i + 1) as int) =~= cur.push(v@[i as int]));
            }
        }
        i = i + 1;
    }
    let piece = trim_range(v, start, to);
    let ghost old_done = done@;
    let ghost old_dv = done.deep_view();
    let ghost old_raw = done_raw;
    proof {
        let cur = v@.subrange(start as int, to as int);
        assert(comma_pieces(t, to - from, cur) == seq![cur]);
        done_raw = done_raw.push(cur);
        assert(all =~= done_raw);
    }
    done.push(piece);
    assert forall|k: int| 0 <= k < done.len() implies
        done.deep_view()[k] == trim_all(done_raw)[k] by {
        if k < old_done.len() {
            assert(done@[k] == old_done[k]);
            assert(old_raw[k] == done_raw[k]);
            assert(old_dv[k] == old_done[k].deep_view());
            assert(old_dv[k] == trim_all(old_raw)[k]);
        } else {
            assert(done@[k] == piece);
        }
    }
    assert(done.deep_view() =~= trim_all(done_raw));
    done
}

} // verus!

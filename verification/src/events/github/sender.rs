//! The sender of a GitHub event, and the person's name taken from the LDAP
//! distinguished name that GitHub Enterprise attaches to it.
//!
//! The name is the text between `CN=` and the first `,OU=` that ends it, in
//! the first place where the pattern `CN=(?P<name>[^=]+),OU=` matches; the
//! escaping backslashes of the distinguished name are dropped from it.

use vstd::prelude::*;
use crate::text::{chars_of, opt_view, remove_backslashes, without_char};

verus! {

broadcast use vstd::string::group_string_axioms;

/// The sender of an event.
pub struct Sender {
    pub login: String,
    pub id: u64,
    pub avatar_url: String,
    pub gravatar_id: String,
    pub url: String,
    pub ldap_dn: Option<String>,
}

// ---------------------------------------------------------------------------
// Specifications.
// ---------------------------------------------------------------------------

/// Number of consecutive characters of `s` other than `=` from `p`.
pub open spec fn non_eq_run(s: Seq<char>, p: int) -> nat
    decreases s.len() - p,
{
    if p < 0 || p >= s.len() {
        0
    } else if s[p] != '=' {
        1 + non_eq_run(s, p + 1)
    } else {
        0
    }
}

/// Index of the first `=` at or after `p` (or the length of `s`).
pub open spec fn next_eq(s: Seq<char>, p: int) -> int {
    p + non_eq_run(s, p)
}

/// A common name `CN=<name>,OU=` starts at `i`: the name runs up to the
/// `,OU` just before the next `=`, and is not empty.
pub open spec fn cn_at(s: Seq<char>, i: int) -> bool {
    let e = next_eq(s, i + 3);
    &&& 0 <= i
    &&& i + 3 <= s.len()
    &&& s[i] == 'C'
    &&& s[i + 1] == 'N'
    &&& s[i + 2] == '='
    &&& e < s.len()
    &&& i + 3 < e - 3
    &&& s[e - 3] == ','
    &&& s[e - 2] == 'O'
    &&& s[e - 1] == 'U'
}

/// The name of the first common name in `s[i..]`.
pub open spec fn cn_name_from(s: Seq<char>, i: int) -> Option<Seq<char>>
    decreases s.len() - i,
{
    if i < 0 || i >= s.len() {
        None
    } else if cn_at(s, i) {
        Some(s.subrange(i + 3, next_eq(s, i + 3) - 3))
    } else {
        cn_name_from(s, i + 1)
    }
}

/// The person's name in a distinguished name, backslashes removed.
pub open spec fn dn_person_name(dn: Seq<char>) -> Option<Seq<char>> {
    match cn_name_from(dn, 0) {
        Some(n) => Some(without_char(n, '\\')),
        None => None,
    }
}

/// The name that identifies a sender: the login when there is no
/// distinguished name, else the person's name in it.
pub open spec fn sender_name_of(login: Seq<char>, ldap_dn: Option<Seq<char>>) -> Option<Seq<char>> {
    match ldap_dn {
        None => Some(login),
        Some(dn) => dn_person_name(dn),
    }
}

// ---------------------------------------------------------------------------
// Lemmas and laws.
// ---------------------------------------------------------------------------

proof fn lemma_non_eq_run_bounds(s: Seq<char>, p: int)
    requires
        0 <= p <= s.len(),
    ensures
        p + non_eq_run(s, p) <= s.len(),
        p + non_eq_run(s, p) < s.len() ==> s[p + non_eq_run(s, p)] == '=',
        forall|k: int| p <= k < p + non_eq_run(s, p) ==> #[trigger] s[k] != '=',
    decreases s.len() - p,
{
    if p < s.len() && s[p] != '=' {
        lemma_non_eq_run_bounds(s, p + 1);
    }
}

/// `n` sits at `j` in `s`, preceded by `CN=` and followed by `,OU=`.
pub open spec fn cn_name_placed(s: Seq<char>, n: Seq<char>, j: int) -> bool {
    &&& 3 <= j
    &&& j + n.len() + 4 <= s.len()
    &&& s.subrange(j, j + n.len()) == n
    &&& s[j - 3] == 'C' && s[j - 2] == 'N' && s[j - 1] == '='
    &&& s[j + n.len()] == ',' && s[j + n.len() + 1] == 'O' && s[j + n.len() + 2] == 'U'
    &&& s[j + n.len() + 3] == '='
}

/// The name found in a distinguished name holds no `=`, and it sits between
/// `CN=` and `,OU=` in the text.
pub proof fn law_cn_name_shape(s: Seq<char>, i: int)
    requires
        0 <= i,
        cn_name_from(s, i) is Some,
    ensures
        ({
            let n = cn_name_from(s, i)->Some_0;
            &&& n.len() > 0
            &&& forall|k: int| 0 <= k < n.len() ==> #[trigger] n[k] != '='
            &&& exists|j: int| cn_name_placed(s, n, j)
        }),
    decreases s.len() - i,
{
    if i < s.len() {
        if cn_at(s, i) {
            lemma_non_eq_run_bounds(s, i + 3);
            let e = next_eq(s, i + 3);
            let n = s.subrange(i + 3, e - 3);
            assert forall|k: int| 0 <= k < n.len() implies #[trigger] n[k] != '=' by {
                assert(n[k] == s[i + 3 + k]);
            }
            assert(cn_name_from(s, i) == Some(n));
            let j = i + 3;
            assert(s.subrange(j, j + n.len()) == n);
            assert(s[j + n.len() + 3] == '=');
            assert(s[j + n.len()] == ',');
            assert(cn_name_placed(s, n, j));
        } else {
            law_cn_name_shape(s, i + 1);
        }
    }
}

// ---------------------------------------------------------------------------
// Executable functions.
// ---------------------------------------------------------------------------

fn next_eq_exec(v: &Vec<char>, p: usize) -> (e: usize)
    requires
        p <= v.len(),
    ensures
        e == next_eq(v@, p as int),
        e <= v.len(),
{
    proof {
        lemma_non_eq_run_bounds(v@, p as int);
    }
    let mut e = p;
    while e < v.len() && v[e] != '='
        invariant
            p <= e <= v.len(),
            non_eq_run(v@, p as int) == (e - p) + non_eq_run(v@, e as int),
        decreases v.len() - e,
    {
        e = e + 1;
    }
    e
}

fn cn_at_exec(v: &Vec<char>, i: usize) -> (r: Option<(usize, usize)>)
    requires
        i <= v.len(),
    ensures
        (r is Some) == cn_at(v@, i as int),
        r matches Some((a, b)) ==> a == i + 3 && b == next_eq(v@, i + 3) - 3 && a < b <= v.len(),
{
    if v.len() - i < 3 || v[i] != 'C' || v[i + 1] != 'N' || v[i + 2] != '=' {
        return None;
    }
    let e = next_eq_exec(v, i + 3);
    if e < v.len() && e >= 3 && i + 3 < e - 3 && v[e - 3] == ',' && v[e - 2] == 'O' && v[e - 1]
        == 'U' {
        Some((i + 3, e - 3))
    } else {
        None
    }
}

/// The person's name in the distinguished name `dn`, backslashes removed.
pub fn person_name_of_dn(dn: &str) -> (r: Option<String>)
    ensures
        match r {
            Some(n) => dn_person_name(dn@) == Some(n@),
            None => dn_person_name(dn@) is None,
        },
{
    let v = chars_of(dn);
    let mut i: usize = 0;
    while i < v.len()
        invariant
            i <= v.len(),
            v@ == dn@,
            cn_name_from(v@, 0) == cn_name_from(v@, i as int),
        decreases v.len() - i,
    {
        match cn_at_exec(&v, i) {
            Some((a, b)) => {
                return Some(remove_backslashes(&v, a, b));
            },
            None => {},
        }
        i = i + 1;
    }
    None
}

impl Sender {
    /// The name that identifies the sender: the login when there is no
    /// distinguished name, else the person's name in it.
    pub fn get_sender_name(&self) -> (r: Option<String>)
        ensures
            match r {
                Some(n) => sender_name_of(self.login@, opt_view(self.ldap_dn)) == Some(n@),
                None => sender_name_of(self.login@, opt_view(self.ldap_dn)) is None,
            },
    {
        match &self.ldap_dn {
            None => Some(self.login.clone()),
            Some(dn) => person_name_of_dn(dn.as_str()),
        }
    }

    /// The sender's login.
    pub fn get_login_name(&self) -> (r: &str)
        ensures
            r@ == self.login@,
    {
        self.login.as_str()
    }
}

} // verus!

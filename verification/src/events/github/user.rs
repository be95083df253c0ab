//! A GitHub user as the users API describes it.

use vstd::prelude::*;

verus! {

/// A GitHub user; `name` is the display name, when the user set one.
pub struct User {
    pub login: String,
    pub id: u64,
    pub url: String,
    pub repos_url: String,
    pub name: Option<String>,
}

} // verus!

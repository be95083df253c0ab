//! A GitHub repository.

use vstd::prelude::*;

verus! {

/// A repository; `full_name` is `owner/name`.
pub struct Repository {
    pub id: u64,
    pub name: String,
    pub full_name: String,
    pub fork: bool,
    pub url: String,
    pub commits_url: String,
    pub issue_comment_url: String,
    pub pulls_url: String,
    pub git_url: String,
}

impl Repository {
    /// The `owner/name` of the repository.
    pub fn get_full_name(&self) -> (r: &str)
        ensures
            r@ == self.full_name@,
    {
        self.full_name.as_str()
    }
}

} // verus!

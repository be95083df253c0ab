//! An issue or pull-request comment.

use vstd::prelude::*;
use super::user::User;

verus! {

/// A comment with its text.
pub struct Comment {
    pub url: String,
    pub html_url: String,
    pub issue_url: String,
    pub id: u64,
    pub user: User,
    pub body: String,
}

impl Comment {
    /// The comment's text.
    pub fn get_body(&self) -> (r: &str)
        ensures
            r@ == self.body@,
    {
        self.body.as_str()
    }
}

} // verus!

//! An issue or pull-request comment.

use vstd::prelude::*;
use crate::events::github::user::User;

verus! {

/// A comment with its text.
pub struct Comment {
    pub url: String,
    pub html_url: String,
    pub issue_url: String,
    pub id: u64,
    pub user: User,
    pub body: String,
}

impl Comment {
    /// A copy of the comment's text.
    pub fn get_body(&self) -> (r: String)
        ensures
            r@ == self.body@,
    {
        self.body.clone()
    }
}

} // verus!

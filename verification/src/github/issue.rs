//! A GitHub issue, and the body of a comment posted to one.

use vstd::prelude::*;
use crate::events::github::{get_work_product, work_product_of};
use crate::events::github::user::User;
use crate::text::opt_view;

verus! {

/// The body of a comment posted to an issue.
pub struct PostComment<'a> {
    pub body: &'a str,
}

/// An issue; its title may name work items.
pub struct Issue {
    pub url: String,
    pub repository_url: String,
    pub comments_url: String,
    pub html_url: String,
    pub id: u64,
    pub number: u64,
    pub title: String,
    pub user: User,
    pub comments: u64,
    pub body: String,
}

impl Issue {
    /// The issue number.
    pub fn get_number(&self) -> (r: u64)
        ensures
            r == self.number,
    {
        self.number
    }

    /// The work items that the title names.
    pub fn get_work_product(&self) -> (r: Option<String>)
        ensures
            opt_view(r) == work_product_of(self.title@),
    {
        get_work_product(self.title.as_str())
    }
}

} // verus!

//! A GitHub issue (or the issue side of a pull request).

use vstd::prelude::*;
use super::user::User;
use super::{get_work_product, work_product_of};

verus! {

/// An issue; its title may name work items.
pub struct Issue {
    pub url: String,
    pub repository_url: String,
    pub comments_url: String,
    pub html_url: String,
    pub id: u64,
    pub number: u64,
    pub title: String,
    pub user: User,
    pub comments: u64,
    pub body: Option<String>,
}

impl Issue {
    /// The issue number.
    pub fn get_number(&self) -> (r: u64)
        ensures
            r == self.number,
    {
        self.number
    }

    /// The work items that the title names.
    pub fn get_work_product(&self) -> (r: Option<String>)
        ensures
            match r {
                Some(w) => work_product_of(self.title@) == Some(w@),
                None => work_product_of(self.title@) is None,
            },
    {
        get_work_product(self.title.as_str())
    }
}

} // verus!

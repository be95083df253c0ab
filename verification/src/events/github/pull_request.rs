//! A GitHub pull request.

use vstd::prelude::*;
use super::{get_work_product, work_product_of};

verus! {

/// A pull request; its title may name work items.
pub struct PullRequest {
    pub url: String,
    pub number: u64,
    pub state: String,
    pub title: String,
}

impl PullRequest {
    /// The pull-request number.
    pub fn get_number(&self) -> (r: u64)
        ensures
            r == self.number,
    {
        self.number
    }

    /// The work items that the title names.
    pub fn get_work_product(&self) -> (r: Option<String>)
        ensures
            match r {
                Some(w) => work_product_of(self.title@) == Some(w@),
                None => work_product_of(self.title@) is None,
            },
    {
        get_work_product(self.title.as_str())
    }
}

} // verus!

//! A pull-request review.

use vstd::prelude::*;
use super::user::User;

verus! {

/// A pull-request review with its text.
pub struct Review {
    pub id: u64,
    pub user: User,
    pub body: String,
}

impl Review {
    /// The review's identifier, which stands in for a number.
    pub fn get_number(&self) -> (r: u64)
        ensures
            r == self.id,
    {
        self.id
    }

    /// The review's text.
    pub fn get_body(&self) -> (r: &str)
        ensures
            r@ == self.body@,
    {
        self.body.as_str()
    }
}

} // verus!

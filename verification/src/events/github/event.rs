//! A GitHub webhook event: a comment, a review, an issue or a pull request in
//! a repository, sent by someone.

use vstd::prelude::*;
use super::comment::Comment;
use super::issue::Issue;
use super::pull_request::PullRequest;
use super::review::Review;
use super::sender::{Sender, sender_name_of};
use super::work_product_of;
use crate::github::repo::Repository;
use crate::msg::time_spent::TimeSpentTrait;
use crate::text::opt_view;

verus! {

broadcast use vstd::string::group_string_axioms;

/// A GitHub webhook event.
pub struct GithubEvent {
    pub action: String,
    pub issue: Option<Issue>,
    pub review: Option<Review>,
    pub comment: Option<Comment>,
    pub repository: Repository,
    pub sender: Sender,
    pub pull_request: Option<PullRequest>,
}

impl TimeSpentTrait for GithubEvent {
    /// The repository's full name.
    open spec fn repo_name_view(&self) -> Option<Seq<char>> {
        Some(self.repository.full_name@)
    }

    /// The number of the pull request, else of the issue, else the review's
    /// identifier.
    open spec fn pr_number_view(&self) -> Option<u64> {
        match self.pull_request {
            Some(p) => Some(p.number),
            None => match self.issue {
                Some(i) => Some(i.number),
                None => match self.review {
                    Some(r) => Some(r.id),
                    None => None,
                },
            },
        }
    }

    /// The sender's name, or `ocr_default` when the sender's distinguished
    /// name names no person.
    open spec fn user_name_view(&self) -> Seq<char> {
        match sender_name_of(self.sender.login@, opt_view(self.sender.ldap_dn)) {
            Some(n) => n,
            None => "ocr_default"@,
        }
    }

    /// The work items named by the pull request's title, else by the
    /// issue's title.
    open spec fn work_product_view(&self) -> Option<Seq<char>> {
        match self.pull_request {
            Some(p) => work_product_of(p.title@),
            None => match self.issue {
                Some(i) => work_product_of(i.title@),
                None => None,
            },
        }
    }

    /// The comment's text, else the review's text.
    open spec fn code_view(&self) -> Option<Seq<char>> {
        match self.comment {
            Some(c) => Some(c.body@),
            None => match self.review {
                Some(r) => Some(r.body@),
                None => None,
            },
        }
    }

    /// The sender's login.
    open spec fn login_name_view(&self) -> Seq<char> {
        self.sender.login@
    }

    fn get_repo_name(&self) -> (r: Option<&str>) {
        Some(self.repository.get_full_name())
    }

    fn get_pr_number(&self) -> (r: Option<u64>) {
        if self.pull_request.is_some() {
            return match &self.pull_request {
                Some(p) => Some(p.get_number()),
                None => None,
            };
        }
        if self.issue.is_some() {
            return match &self.issue {
                Some(i) => Some(i.get_number()),
                None => None,
            };
        }
        if self.review.is_some() {
            return match &self.review {
                Some(r) => Some(r.get_number()),
                None => None,
            };
        }
        None
    }

    fn get_user_name(&self) -> (r: String) {
        match self.sender.get_sender_name() {
            Some(n) => n,
            None => "ocr_default".to_string(),
        }
    }

    fn get_work_product(&self) -> (r: Option<String>) {
        if self.pull_request.is_some() {
            return match &self.pull_request {
                Some(p) => p.get_work_product(),
                None => None,
            };
        }
        match &self.issue {
            Some(i) => i.get_work_product(),
            None => None,
        }
    }

    fn get_code(&self) -> (r: Option<&str>) {
        match &self.comment {
            Some(c) => Some(c.get_body()),
            None => match &self.review {
                Some(r) => Some(r.get_body()),
                None => None,
            },
        }
    }

    fn get_login_name(&self) -> (r: &str) {
        self.sender.get_login_name()
    }
}

impl GithubEvent {
    /// What happened: `created`, `edited`, `deleted`, `submitted`, ...
    pub fn get_action(&self) -> (r: &str)
        ensures
            r@ == self.action@,
    {
        self.action.as_str()
    }
}

} // verus!

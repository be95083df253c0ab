//! A GitHub Enterprise webhook event, as the first generation reads it.

use vstd::prelude::*;
use super::comment::Comment;
use super::issue::Issue;
use super::repo::Repository;
use super::sender::Sender;
use crate::events::github::pull_request::PullRequest;
use crate::events::github::review::Review;
use crate::events::github::sender::dn_person_name;
use crate::events::github::work_product_of;
use crate::msg::time_spent::TimeSpentTrait;
use crate::text::{opt_str_view, opt_view};

verus! {

broadcast use vstd::string::group_string_axioms;

/// A GitHub webhook event.
pub struct GithubEvent {
    pub action: String,
    pub issue: Option<Issue>,
    pub review: Option<Review>,
    pub comment: Option<Comment>,
    pub repository: Repository,
    pub sender: Sender,
    pub pull_request: Option<PullRequest>,
}

impl GithubEvent {
    /// The comment's text, else the review's text.
    pub fn get_code(&self) -> (r: Option<&str>)
        ensures
            opt_str_view(r) == self.code_view(),
    {
        if self.comment.is_some() {
            return match &self.comment {
                Some(c) => Some(c.body.as_str()),
                None => None,
            };
        }
        if self.review.is_some() {
            return match &self.review {
                Some(r) => Some(r.get_body()),
                None => None,
            };
        }
        None
    }

    /// The repository's full name.
    pub fn get_repo_name(&self) -> (r: Option<&str>)
        ensures
            opt_str_view(r) == self.repo_name_view(),
    {
        Some(self.repository.get_full_name())
    }

    /// The number of the pull request, else of the issue, else the review's
    /// identifier.
    pub fn get_pr_number(&self) -> (r: Option<u64>)
        ensures
            r == self.pr_number_view(),
    {
        if self.pull_request.is_some() {
            return match &self.pull_request {
                Some(p) => Some(p.get_number()),
                None => None,
            };
        }
        if self.issue.is_some() {
            return match &self.issue {
                Some(i) => Some(i.get_number()),
                None => None,
            };
        }
        if self.review.is_some() {
            return match &self.review {
                Some(r) => Some(r.get_number()),
                None => None,
            };
        }
        None
    }

    /// What happened: `created`, `edited`, `deleted`, `submitted`, ...
    pub fn get_action(&self) -> (r: &str)
        ensures
            r@ == self.action@,
    {
        self.action.as_str()
    }

    /// The person's name in the sender's distinguished name, or `ocr_default`.
    pub fn get_user_name(&self) -> (r: String)
        ensures
            r@ == self.user_name_view(),
    {
        match self.sender.get_sender_name() {
            Some(n) => n,
            None => "ocr_default".to_string(),
        }
    }

    /// The sender's login.
    pub fn get_login_name(&self) -> (r: &str)
        ensures
            r@ == self.login_name_view(),
    {
        self.sender.get_login_name()
    }

    /// The work items named by the pull request's title, else by the issue's
    /// title; the event must be on a pull request or an issue.
    pub fn get_work_product(&self) -> (r: Option<String>)
        requires
            self.pull_request is Some || self.issue is Some,
        ensures
            opt_view(r) == self.work_product_view(),
    {
        if self.pull_request.is_some() {
            return match &self.pull_request {
                Some(p) => p.get_work_product(),
                None => None,
            };
        }
        match &self.issue {
            Some(i) => i.get_work_product(),
            None => None,
        }
    }
}

impl TimeSpentTrait for GithubEvent {
    open spec fn repo_name_view(&self) -> Option<Seq<char>> {
        Some(self.repository.full_name@)
    }

    open spec fn pr_number_view(&self) -> Option<u64> {
        match self.pull_request {
            Some(p) => Some(p.number),
            None => match self.issue {
                Some(i) => Some(i.number),
                None => match self.review {
                    Some(r) => Some(r.id),
                    None => None,
                },
            },
        }
    }

    open spec fn user_name_view(&self) -> Seq<char> {
        match dn_person_name(self.sender.ldap_dn@) {
            Some(n) => n,
            None => "ocr_default"@,
        }
    }

    /// The work items named by the pull request's title, else by the issue's
    /// title; none when the event is on neither.
    open spec fn work_product_view(&self) -> Option<Seq<char>> {
        match self.pull_request {
            Some(p) => work_product_of(p.title@),
            None => match self.issue {
                Some(i) => work_product_of(i.title@),
                None => None,
            },
        }
    }

    open spec fn code_view(&self) -> Option<Seq<char>> {
        match self.comment {
            Some(c) => Some(c.body@),
            None => match self.review {
                Some(r) => Some(r.body@),
                None => None,
            },
        }
    }

    open spec fn login_name_view(&self) -> Seq<char> {
        self.sender.login@
    }

    fn get_repo_name(&self) -> (r: Option<&str>) {
        GithubEvent::get_repo_name(self)
    }

    fn get_pr_number(&self) -> (r: Option<u64>) {
        GithubEvent::get_pr_number(self)
    }

    fn get_user_name(&self) -> (r: String) {
        GithubEvent::get_user_name(self)
    }

    fn get_work_product(&self) -> (r: Option<String>) {
        if self.pull_request.is_none() && self.issue.is_none() {
            return None;
        }
        GithubEvent::get_work_product(self)
    }

    fn get_code(&self) -> (r: Option<&str>) {
        GithubEvent::get_code(self)
    }

    fn get_login_name(&self) -> (r: &str) {
        GithubEvent::get_login_name(self)
    }
}

} // verus!

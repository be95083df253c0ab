//! Deciding what a GitHub event asks for in the second generation of message
//! handling.
//!
//! Deleted comments are ignored.  A comment that reports time spent (and is
//! not an edit) yields a time-spent report; a comment that names an OCR
//! keyword, on a pull request or issue, yields a backend task as well.  The
//! program sends the messages in order and then reports the error, if any.

use vstd::prelude::*;
use crate::colon_fields::text_value;
use crate::config_env::ConfigEnv;
use crate::constants::{
    contains_ocr_patten, contains_time_spent_pattern, has_ocr_keyword, has_time_spent,
    law_time_value_iff_report,
};
use crate::events::msg::task::build_no_keys;
use crate::github::event::GithubEvent;
use crate::text::str_eq;
use super::Message;
use super::task::{
    build_number_required_message, get_backend_task_from_str, requested_backend_task,
    BackendTaskError,
};
use super::time_spent::{get_time_spent, TimeSpentTrait};

verus! {

broadcast use vstd::string::group_string_axioms;

/// The comment of `event`, when it is one the handler acts on (not deleted).
pub open spec fn acted_comment(event: &GithubEvent) -> Option<Seq<char>> {
    if event.action@ == "deleted"@ {
        None
    } else {
        event.code_view()
    }
}

/// The comment `c` on `event` yields a time-spent report.
pub open spec fn yields_time_spent(event: &GithubEvent, c: Seq<char>) -> bool {
    has_time_spent(c) && event.action@ != "edited"@ && event.work_product_view() is Some
}

/// The comment `c` on `event` asks for a backend task.
pub open spec fn asks_for_task(event: &GithubEvent, c: Seq<char>) -> bool {
    has_ocr_keyword(c) && event.pr_number_view() is Some
}

/// `r` holds the messages (in the order they are to be sent) and the error
/// that the GitHub `event` yields under `config`: nothing for a deleted
/// comment or an event without one; else a time-spent report when the
/// comment reports time, is not an edit and its title names a work item; and
/// a task, or the error that a build number is required, when it names an
/// OCR keyword and the event has a pull-request number.
pub open spec fn github_message_outcome(
    r: (Vec<Message>, Option<BackendTaskError>),
    event: &GithubEvent,
    config: &ConfigEnv,
) -> bool {
    &&& acted_comment(event) is None ==> r.0.len() == 0 && r.1 is None
    &&& acted_comment(event) matches Some(c) ==> {
        let ts: int = if yields_time_spent(event, c) { 1 } else { 0 };
        let task_ok = asks_for_task(event, c) && text_value(c, build_no_keys()).len() != 0;
        &&& r.0.len() == ts + if task_ok { 1int } else { 0 }
        &&& yields_time_spent(event, c) ==> (r.0[0] matches Message::TimeSpent(tp) && tp.reports(c, event, None))
        &&& task_ok ==> (r.0[r.0.len() - 1] matches Message::Task(t) && requested_backend_task(
            t,
            c,
            event.repository.full_name@,
            event.pr_number_view()->Some_0,
            event.user_name_view(),
            *config,
        ))
        &&& (r.1 is Some <==> asks_for_task(event, c) && text_value(c, build_no_keys()).len() == 0)
        &&& r.1 matches Some(BackendTaskError::BuildNumberRequired(m)) ==> m@
            == build_number_required_message(config.xt_doc_url@)
    }
}

/// The messages (to be sent in order) and the error that a GitHub event
/// yields.
pub fn handle_github_message(event: &GithubEvent, config: &ConfigEnv) -> (r: (
    Vec<Message>,
    Option<BackendTaskError>,
))
    ensures
        github_message_outcome(r, event, config),
{
    let mut messages: Vec<Message> = Vec::new();
    let action = event.get_action();
    if str_eq(action, "deleted") {
        return (messages, None);
    }
    let comment = match event.get_code() {
        Some(c) => c,
        None => return (messages, None),
    };
    proof {
        law_time_value_iff_report(comment@);
    }
    if contains_time_spent_pattern(comment) && !str_eq(event.get_action(), "edited") {
        match get_time_spent(comment, event, None) {
            Some(tp) => messages.push(Message::TimeSpent(tp)),
            None => {},
        }
    }
    if contains_ocr_patten(comment) {
        match (event.get_repo_name(), event.get_pr_number()) {
            (Some(repo), Some(pr)) => {
                match get_backend_task_from_str(
                    comment,
                    repo.to_string(),
                    pr,
                    event.get_user_name(),
                    config,
                ) {
                    Ok(t) => {
                        messages.push(Message::Task(t));
                    },
                    Err(e) => {
                        return (messages, Some(e));
                    },
                }
            },
            _ => {},
        }
    }
    (messages, None)
}

/// A comment that is not deleted, names an OCR keyword and gives a build
/// number yields a task whenever the event is on a pull request or an issue:
/// the last message is the task, for the event's repository and for the
/// number of the pull request, else of the issue.
pub proof fn law_ocr_comment_yields_task(
    r: (Vec<Message>, Option<BackendTaskError>),
    event: &GithubEvent,
    config: &ConfigEnv,
    c: Seq<char>,
)
    requires
        github_message_outcome(r, event, config),
        event.action@ != "deleted"@,
        event.code_view() == Some(c),
        has_ocr_keyword(c),
        text_value(c, build_no_keys()).len() != 0,
        event.pull_request is Some || event.issue is Some,
    ensures
        r.1 is None,
        r.0.len() >= 1,
        r.0[r.0.len() - 1] matches Message::Task(t) && {
            &&& t.RepoName@ == event.repository.full_name@
            &&& t.PR == match event.pull_request {
                Some(p) => p.number,
                None => event.issue->Some_0.number,
            }
        },
{
}

} // verus!

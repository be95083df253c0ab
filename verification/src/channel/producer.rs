//! Deciding what a webhook event asks for in the first generation.
//!
//! A GitHub comment of interest (one naming an OCR keyword or reporting time
//! spent) that is not deleted yields a time-spent report, when it reports
//! time and is not an edit, and a backend task, when it names an OCR keyword
//! on a pull request or issue.  A Rally text that reports time spent on an
//! artifact yields a time-spent report.  The program sends the messages in
//! order.

use vstd::prelude::*;
use crate::backend_task::get_backend_task_from_str;
use crate::constants::{
    contain_keywords, contains_ocr_patten, contains_time_spent_pattern, has_ocr_keyword,
    has_time_spent, law_time_value_iff_report, time_value,
};
use crate::event::rally::Event;
use crate::github::event::GithubEvent;
use crate::msg::time_spent::TimeSpentTrait;
use crate::time_spent::{get_time_spent_from_rally_str, get_time_spent_from_str, rally_task_name};
use crate::text::{opt_view, str_eq};
use super::Message;

verus! {

broadcast use vstd::string::group_string_axioms;

/// The comment of `event`, when it is one the producer acts on: not deleted,
/// and naming an OCR keyword or reporting time spent.
pub open spec fn interesting_comment(event: &GithubEvent) -> Option<Seq<char>> {
    if event.action@ == "deleted"@ {
        None
    } else {
        match event.code_view() {
            Some(c) => if has_ocr_keyword(c) || has_time_spent(c) {
                Some(c)
            } else {
                None
            },
            None => None,
        }
    }
}

/// The comment `c` on `event` is to yield a time-spent report.
pub open spec fn reports_time(event: &GithubEvent, c: Seq<char>) -> bool {
    has_time_spent(c) && event.action@ != "edited"@
}

/// `r` holds the messages that the GitHub `event` yields, in the order they
/// are to be sent: nothing unless its comment is of interest; else a
/// time-spent report when the comment reports time and is not an edit, and
/// then a backend task when it names an OCR keyword and the event has a
/// pull-request number.
pub open spec fn producer_outcome(r: Vec<Message>, event: &GithubEvent) -> bool {
    &&& interesting_comment(event) is None ==> r.len() == 0
    &&& interesting_comment(event) matches Some(c) ==> {
        let ts: int = if reports_time(event, c) { 1 } else { 0 };
        let task: int = if has_ocr_keyword(c) && event.pr_number_view() is Some { 1 } else { 0 };
        &&& r.len() == ts + task
        &&& ts == 1 ==> (r[0] matches Message::TimeSpent(tp) && {
            &&& tp.user@ == event.user_name_view()
            &&& tp.login@ == event.login_name_view()
            &&& time_value(c) == Some(tp.value@)
            &&& opt_view(tp.wp_formatted_id) == event.work_product_view()
            &&& opt_view(tp.repo_name) == event.repo_name_view()
            &&& tp.pr_number == event.pr_number_view()
            &&& tp.task_name is None
        })
        &&& task == 1 ==> (r[r.len() - 1] matches Message::BackendTask(t) && t.RepoName@
            == event.repository.full_name@ && t.PR == event.pr_number_view()->Some_0)
    }
}

/// The messages that a GitHub event yields, in the order they are to be sent.
/// A time-spent comment (not an edit) must be on a pull request or an issue.
pub fn produce_message_from(event: &GithubEvent) -> (r: Vec<Message>)
    requires
        interesting_comment(event) matches Some(c) && reports_time(event, c) ==> (
        event.pull_request is Some || event.issue is Some),
    ensures
        producer_outcome(r, event),
{
    let mut messages: Vec<Message> = Vec::new();
    if str_eq(event.get_action(), "deleted") {
        return messages;
    }
    let comment = match event.get_code() {
        Some(c) => c,
        None => return messages,
    };
    if !contain_keywords(comment) {
        return messages;
    }
    proof {
        law_time_value_iff_report(comment@);
    }
    if contains_time_spent_pattern(comment) && !str_eq(event.get_action(), "edited") {
        match get_time_spent_from_str(comment, event) {
            Some(tp) => messages.push(Message::TimeSpent(tp)),
            None => {},
        }
    }
    if contains_ocr_patten(comment) {
        match (event.get_repo_name(), event.get_pr_number()) {
            (Some(repo), Some(pr)) => {
                match get_backend_task_from_str(comment, repo, pr, event.get_user_name()) {
                    Ok(task) => messages.push(Message::BackendTask(task)),
                    Err(_) => {},
                }
            },
            _ => {},
        }
    }
    messages
}

/// The messages that a Rally event yields: a time-spent report when its text
/// reports time spent and the event is on an artifact.
pub fn produce_msg_from(event: &Event) -> (r: Vec<Message>)
    ensures
        r.len() == if has_time_spent(event.message.state.text.value@)
            && event.work_product_view() is Some { 1int } else { 0 },
        r.len() == 1 ==> (r[0] matches Message::TimeSpent(tp) && {
            &&& tp.user@ == event.user_name_view()
            &&& tp.login@ == event.user_name_view()
            &&& time_value(event.message.state.text.value@) == Some(tp.value@)
            &&& opt_view(tp.wp_formatted_id) == event.work_product_view()
            &&& tp.repo_name is None
            &&& tp.pr_number is None
            &&& opt_view(tp.task_name) == Some(rally_task_name())
        }),
{
    let mut messages: Vec<Message> = Vec::new();
    let comment = match event.get_code() {
        Some(c) => c,
        None => return messages,
    };
    proof {
        law_time_value_iff_report(comment@);
    }
    if !contains_time_spent_pattern(comment) {
        return messages;
    }
    match get_time_spent_from_rally_str(comment, event) {
        Some(tp) => messages.push(Message::TimeSpent(tp)),
        None => {},
    }
    messages
}

/// A comment that is not deleted and names an OCR keyword is of interest
/// whether or not it reports time spent; on a pull request or an issue it
/// yields a backend task, the last message, for the event's repository and
/// for the number of the pull request, else of the issue.
pub proof fn law_ocr_comment_yields_backend_task(r: Vec<Message>, event: &GithubEvent, c: Seq<char>)
    requires
        producer_outcome(r, event),
        event.action@ != "deleted"@,
        event.code_view() == Some(c),
        has_ocr_keyword(c),
        event.pull_request is Some || event.issue is Some,
    ensures
        r.len() >= 1,
        r[r.len() - 1] matches Message::BackendTask(t) && {
            &&& t.RepoName@ == event.repository.full_name@
            &&& t.PR == match event.pull_request {
                Some(p) => p.number,
                None => event.issue->Some_0.number,
            }
        },
{
}

} // verus!

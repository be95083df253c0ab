//! Deciding what a GitHub event asks for.
//!
//! Deleted comments are ignored.  A comment that reports time spent (and is
//! not an edit: submitting a review also sends an `edited` event) becomes a
//! time-spent report; otherwise a comment that names an OCR keyword becomes a
//! task for the backend.  The program sends the resulting message.

use vstd::prelude::*;
use crate::config_env::ConfigEnv;
use crate::constants::{
    contains_ocr_patten, contains_time_spent_pattern, has_ocr_keyword, has_time_spent,
    law_time_value_iff_report, time_value,
};
use crate::events::msg::Message;
use crate::events::msg::task::{
    build_number_required_message, build_no_keys, get_task_from_str, requested_task, TaskError,
};
use crate::colon_fields::text_value;
use crate::msg::time_spent::{get_time_spent, TimeSpentTrait};
use super::event::GithubEvent;
use super::user::User;
use crate::text::{opt_view, str_eq};

verus! {

broadcast use vstd::string::group_string_axioms;

/// Why a GitHub event could not be handled.
pub enum HandleError {
    /// The event carries no comment.
    NoComment,
    /// The comment asks for a task that cannot be built.
    Task(TaskError),
}

impl HandleError {
    /// The message that explains the error.
    pub fn message(&self) -> (r: &str)
        ensures
            match self {
                HandleError::NoComment => r@ == "No comment in the github event"@,
                HandleError::Task(TaskError::BuildNumberRequired(m)) => r@ == m@,
            },
    {
        match self {
            HandleError::NoComment => "No comment in the github event",
            HandleError::Task(e) => e.message(),
        }
    }
}

/// The name a task is requested for: the user's display name, else the name
/// taken from the event's sender.
pub open spec fn member_name(event: &GithubEvent, user: &User) -> Seq<char> {
    match user.name {
        Some(n) => n@,
        None => event.user_name_view(),
    }
}

/// The message that a time-spent comment `c` on `event` produces.
pub open spec fn time_spent_outcome(r: Result<Option<Message>, HandleError>, c: Seq<char>, event: &GithubEvent) -> bool {
    match r {
        Ok(Some(Message::TimeSpent(tp))) => tp.reports(c, event, None) && tp.wp_formatted_id is Some,
        Ok(None) => event.work_product_view() is None,
        _ => false,
    }
}

/// The message that an OCR comment `c` on `event` by `user` produces.
pub open spec fn ocr_outcome(
    r: Result<Option<Message>, HandleError>,
    c: Seq<char>,
    event: &GithubEvent,
    user: &User,
    config: &ConfigEnv,
) -> bool {
    match event.pr_number_view() {
        None => r matches Ok(None),
        Some(pr) => match r {
            Ok(Some(Message::Task(t))) => text_value(c, build_no_keys()).len() != 0
                && requested_task(t, c, event.repository.full_name@, pr, member_name(event, user), *config),
            Err(HandleError::Task(TaskError::BuildNumberRequired(m))) => text_value(
                c,
                build_no_keys(),
            ).len() == 0 && m@ == build_number_required_message(config.xt_doc_url@),
            _ => false,
        },
    }
}

fn handle_ocr_event(event: &GithubEvent, user: &User, comment: &str, config: &ConfigEnv) -> (r:
    Result<Option<Message>, HandleError>)
    requires
        event.code_view() == Some(comment@),
    ensures
        ocr_outcome(r, comment@, event, user, config),
{
    let repo = event.get_repo_name();
    let pr = event.get_pr_number();
    match (repo, pr) {
        (Some(repo), Some(pr)) => {
            let member = match &user.name {
                Some(n) => n.clone(),
                None => event.get_user_name(),
            };
            match get_task_from_str(comment, repo.to_string(), pr, member, config) {
                Ok(t) => Ok(Some(Message::Task(t))),
                Err(e) => Err(HandleError::Task(e)),
            }
        },
        _ => Ok(None),
    }
}

fn handle_time_spent_event(event: &GithubEvent, comment: &str) -> (r: Result<Option<Message>, HandleError>)
    requires
        has_time_spent(comment@),
    ensures
        time_spent_outcome(r, comment@, event),
{
    proof {
        law_time_value_iff_report(comment@);
    }
    match get_time_spent(comment, event, None) {
        Some(tp) => Ok(Some(Message::TimeSpent(tp))),
        None => Ok(None),
    }
}

/// `r` is what the GitHub `event` asks for, given `user` and `config`:
/// nothing for a deleted comment; an error when there is no comment; a
/// time-spent report for a comment that reports time spent and is not an
/// edit; else a task for a comment that names an OCR keyword; else nothing.
pub open spec fn github_event_outcome(
    r: Result<Option<Message>, HandleError>,
    event: &GithubEvent,
    user: &User,
    config: &ConfigEnv,
) -> bool {
    if event.action@ == "deleted"@ {
        r matches Ok(None)
    } else {
        match event.code_view() {
            None => r matches Err(HandleError::NoComment),
            Some(c) => if has_time_spent(c) && event.action@ != "edited"@ {
                time_spent_outcome(r, c, event)
            } else if has_ocr_keyword(c) {
                ocr_outcome(r, c, event, user, config)
            } else {
                r matches Ok(None)
            },
        }
    }
}

/// The message that a GitHub event asks for, if any; the event's comment,
/// `user` (the sender as the users API describes it) and the configuration
/// decide it.
pub fn handle_github_event(event: &GithubEvent, user: &User, config: &ConfigEnv) -> (r: Result<
    Option<Message>,
    HandleError,
>)
    ensures
        github_event_outcome(r, event, user, config),
{
    let action = event.get_action();
    if str_eq(action, "deleted") {
        return Ok(None);
    }
    let comment = match event.get_code() {
        Some(c) => c,
        None => return Err(HandleError::NoComment),
    };
    if contains_time_spent_pattern(comment) && !str_eq(event.get_action(), "edited") {
        handle_time_spent_event(event, comment)
    } else if contains_ocr_patten(comment) {
        handle_ocr_event(event, user, comment, config)
    } else {
        Ok(None)
    }
}

// ---------------------------------------------------------------------------
// Laws.
// ---------------------------------------------------------------------------

/// A comment that names no OCR keyword and reports no time spent (one that
/// the web front end turns away as not interesting) asks for nothing.
pub proof fn law_uninteresting_comment_asks_nothing(
    r: Result<Option<Message>, HandleError>,
    event: &GithubEvent,
    user: &User,
    config: &ConfigEnv,
)
    requires
        github_event_outcome(r, event, user, config),
        event.code_view() matches Some(c) && !has_ocr_keyword(c) && !has_time_spent(c),
    ensures
        r matches Ok(None),
{
}

/// A comment or review that reports time spent, on any action but a deletion
/// or an edit (a submitted review among them), on a pull request or issue
/// whose title names a work item, yields that time-spent report: the hours
/// of the first report, the work items, and the number of the pull request
/// (else of the issue).
pub proof fn law_report_on_any_other_action(
    r: Result<Option<Message>, HandleError>,
    event: &GithubEvent,
    user: &User,
    config: &ConfigEnv,
    c: Seq<char>,
)
    requires
        github_event_outcome(r, event, user, config),
        event.action@ != "deleted"@,
        event.action@ != "edited"@,
        event.code_view() == Some(c),
        has_time_spent(c),
        event.work_product_view() is Some,
    ensures
        r matches Ok(Some(Message::TimeSpent(tp))) && {
            &&& time_value(c) == Some(tp.value@)
            &&& opt_view(tp.wp_formatted_id) == event.work_product_view()
            &&& tp.pr_number == match event.pull_request {
                Some(p) => Some(p.number),
                None => Some(event.issue->Some_0.number),
            }
        },
{
}

/// An edited comment never yields a time-spent report.
pub proof fn law_edit_reports_no_time(
    r: Result<Option<Message>, HandleError>,
    event: &GithubEvent,
    user: &User,
    config: &ConfigEnv,
)
    requires
        github_event_outcome(r, event, user, config),
        event.action@ == "edited"@,
    ensures
        !(r matches Ok(Some(Message::TimeSpent(_)))),
{
}

/// Every time-spent report that a GitHub event yields is valid: it names
/// its work item, so the consumer forwards it rather than complaining.
pub proof fn law_reports_are_valid(
    r: Result<Option<Message>, HandleError>,
    event: &GithubEvent,
    user: &User,
    config: &ConfigEnv,
)
    requires
        github_event_outcome(r, event, user, config),
        r matches Ok(Some(Message::TimeSpent(_))),
    ensures
        r matches Ok(Some(Message::TimeSpent(tp))) && tp.wp_formatted_id is Some,
{
}

/// Every task that a GitHub event yields has a build number and carries the
/// whole comment.
pub proof fn law_tasks_have_build_numbers(
    r: Result<Option<Message>, HandleError>,
    event: &GithubEvent,
    user: &User,
    config: &ConfigEnv,
)
    requires
        github_event_outcome(r, event, user, config),
        r matches Ok(Some(Message::Task(_))),
    ensures
        r matches Ok(Some(Message::Task(t))) && t.body.BuildNo@.len() > 0 && event.code_view()
            == opt_view(t.body.comment),
{
}

} // verus!

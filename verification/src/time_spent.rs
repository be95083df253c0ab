//! The first generation's time-spent reports.

use vstd::prelude::*;
use crate::constants::{find_time_value, time_value};
use crate::event::rally::Event;
use crate::github::event::GithubEvent;
use crate::msg::time_spent::{random_id, TimeSpentTrait};
use crate::text::{chars_of, opt_str_view, opt_view, string_of};

verus! {

broadcast use vstd::string::group_string_axioms;

/// A time-spent report.  `value` is the reported number as written in the
/// comment; it is turned into a number where the report is serialised.
pub struct TimeSpent {
    pub user: String,
    pub login: String,
    pub value: String,
    pub id: u64,
    pub wp_formatted_id: Option<String>,
    pub repo_name: Option<String>,
    pub pr_number: Option<u64>,
    pub task_name: Option<String>,
}

impl TimeSpent {
    /// The report's identifier.
    pub fn get_id(&self) -> (r: u64)
        ensures
            r == self.id,
    {
        self.id
    }

    /// A report is valid when it names its work item.
    pub fn is_valid(&self) -> (r: bool)
        ensures
            r == (self.wp_formatted_id is Some),
    {
        self.wp_formatted_id.is_some()
    }

    /// The repository of the report, if any.
    pub fn get_repo(&self) -> (r: Option<&str>)
        ensures
            opt_str_view(r) == opt_view(self.repo_name),
    {
        match &self.repo_name {
            Some(n) => Some(n.as_str()),
            None => None,
        }
    }

    /// The pull request of the report, if any.
    pub fn get_pr_number(&self) -> (r: Option<u64>)
        ensures
            r == self.pr_number,
    {
        self.pr_number
    }
}

/// The time-spent report that the comment `s` makes on the GitHub `event`, if
/// it holds one; the report names the event's work items when there are any.
/// The event must be on a pull request or an issue.  The report's identifier
/// is a random number drawn for it (see [`time_spent_from_str_with_id`]).
pub fn get_time_spent_from_str(s: &str, event: &GithubEvent) -> (r: Option<TimeSpent>)
    requires
        event.pull_request is Some || event.issue is Some,
    ensures
        r is Some <==> time_value(s@) is Some,
        r matches Some(tp) ==> github_report(tp, s@, event),
{
    let k = random_id();
    time_spent_from_str_with_id(s, event, k)
}

/// `tp` is the report that the comment `s` makes on the GitHub `event`.
pub open spec fn github_report(tp: TimeSpent, s: Seq<char>, event: &GithubEvent) -> bool {
    &&& tp.user@ == event.user_name_view()
    &&& tp.login@ == event.login_name_view()
    &&& time_value(s) == Some(tp.value@)
    &&& opt_view(tp.wp_formatted_id) == event.work_product_view()
    &&& opt_view(tp.repo_name) == event.repo_name_view()
    &&& tp.pr_number == event.pr_number_view()
    &&& tp.task_name is None
}

/// The time-spent report, with identifier `k`, that the comment `s` makes on
/// the GitHub `event`, if it holds one.  The event must be on a pull request
/// or an issue.
pub fn time_spent_from_str_with_id(s: &str, event: &GithubEvent, k: u64) -> (r: Option<TimeSpent>)
    requires
        event.pull_request is Some || event.issue is Some,
    ensures
        r matches Some(tp) ==> tp.id == k,
        r is Some <==> time_value(s@) is Some,
        r matches Some(tp) ==> github_report(tp, s@, event),
{
    let user = event.get_user_name();
    let wp = event.get_work_product();
    let v = chars_of(s);
    match find_time_value(&v) {
        Some((a, b)) => {
            let repo_name = match event.get_repo_name() {
                Some(n) => Some(n.to_string()),
                None => None,
            };
            Some(
                TimeSpent {
                    user,
                    login: event.get_login_name().to_string(),
                    value: string_of(&v, a, b),
                    id: k,
                    wp_formatted_id: wp,
                    repo_name,
                    pr_number: event.get_pr_number(),
                    task_name: None,
                },
            )
        },
        None => None,
    }
}

/// The task name of time spent reported in Rally.
pub open spec fn rally_task_name() -> Seq<char> {
    "Review and Suggestion."@
}

/// The time-spent report that the text `s` makes on the Rally `event`, if it
/// holds one and the event is on an artifact.  The report's identifier is a
/// random number drawn for it (see [`time_spent_from_rally_str_with_id`]).
pub fn get_time_spent_from_rally_str(s: &str, event: &Event) -> (r: Option<TimeSpent>)
    ensures
        r is Some <==> (time_value(s@) is Some && event.work_product_view() is Some),
        r matches Some(tp) ==> rally_report(tp, s@, event),
{
    let k = random_id();
    time_spent_from_rally_str_with_id(s, event, k)
}

/// `tp` is the report that the text `s` makes on the Rally `event`.
pub open spec fn rally_report(tp: TimeSpent, s: Seq<char>, event: &Event) -> bool {
    &&& tp.user@ == event.user_name_view()
    &&& tp.login@ == event.user_name_view()
    &&& time_value(s) == Some(tp.value@)
    &&& opt_view(tp.wp_formatted_id) == event.work_product_view()
    &&& tp.repo_name is None
    &&& tp.pr_number is None
    &&& opt_view(tp.task_name) == Some(rally_task_name())
}

/// The time-spent report, with identifier `k`, that the text `s` makes on the
/// Rally `event`, if it holds one and the event is on an artifact.
pub fn time_spent_from_rally_str_with_id(s: &str, event: &Event, k: u64) -> (r: Option<TimeSpent>)
    ensures
        r matches Some(tp) ==> tp.id == k,
        r is Some <==> (time_value(s@) is Some && event.work_product_view() is Some),
        r matches Some(tp) ==> rally_report(tp, s@, event),
{
    let user = event.get_user_name();
    let wp = event.get_work_product();
    let v = chars_of(s);
    match find_time_value(&v) {
        Some((a, b)) => match wp {
            Some(wp) => Some(
                TimeSpent {
                    user: user.to_string(),
                    login: event.get_user_name().to_string(),
                    value: string_of(&v, a, b),
                    id: k,
                    wp_formatted_id: Some(wp.to_string()),
                    repo_name: None,
                    pr_number: None,
                    task_name: Some("Review and Suggestion.".to_string()),
                },
            ),
            None => None,
        },
        None => None,
    }
}

} // verus!

//! Time-spent reports: `Thanks <n>!` in a comment records `<n>` hours spent
//! on the work item of the pull request or Rally artifact the comment is on.

use vstd::prelude::*;
use crate::constants::{find_time_value, time_value};
use crate::text::{chars_of, opt_str_view, opt_view, string_of};

verus! {

broadcast use vstd::string::group_string_axioms;

/// What an event tells about a time-spent report: where it was made and by
/// whom.
pub trait TimeSpentTrait {
    spec fn repo_name_view(&self) -> Option<Seq<char>>;

    spec fn pr_number_view(&self) -> Option<u64>;

    spec fn user_name_view(&self) -> Seq<char>;

    spec fn work_product_view(&self) -> Option<Seq<char>>;

    spec fn code_view(&self) -> Option<Seq<char>>;

    spec fn login_name_view(&self) -> Seq<char>;

    /// The repository the event happened in, if any.
    fn get_repo_name(&self) -> (r: Option<&str>)
        ensures
            opt_str_view(r) == self.repo_name_view(),
    ;

    /// The pull request (or issue) number, if any.
    fn get_pr_number(&self) -> (r: Option<u64>)
        ensures
            r == self.pr_number_view(),
    ;

    /// The name of the person who acted.
    fn get_user_name(&self) -> (r: String)
        ensures
            r@ == self.user_name_view(),
    ;

    /// The work items the event is about, if any.
    fn get_work_product(&self) -> (r: Option<String>)
        ensures
            opt_view(r) == self.work_product_view(),
    ;

    /// The text of the comment, if any.
    fn get_code(&self) -> (r: Option<&str>)
        ensures
            opt_str_view(r) == self.code_view(),
    ;

    /// The login of the person who acted.
    fn get_login_name(&self) -> (r: &str)
        ensures
            r@ == self.login_name_view(),
    ;
}

/// A time-spent report.  `value` is the reported number as written in the
/// comment (one digit, or a digit, a dot and one to three digits); it is
/// turned into a number where the report is serialised.
pub struct TimeSpent {
    pub user: String,
    pub login: String,
    pub value: String,
    pub id: u64,
    pub wp_formatted_id: Option<String>,
    pub repo_name: Option<String>,
    pub pr_number: Option<u64>,
    pub task_name: Option<String>,
}

impl TimeSpent {
    /// `self` is the report that the comment `s` makes on `event` under
    /// `task_name` (its identifier aside).
    pub open spec fn reports<T: TimeSpentTrait>(
        &self,
        s: Seq<char>,
        event: &T,
        task_name: Option<String>,
    ) -> bool {
        &&& self.user@ == event.user_name_view()
        &&& self.login@ == event.login_name_view()
        &&& time_value(s) == Some(self.value@)
        &&& opt_view(self.wp_formatted_id) == event.work_product_view()
        &&& opt_view(self.repo_name) == event.repo_name_view()
        &&& self.pr_number == event.pr_number_view()
        &&& self.task_name == task_name
    }

    /// The report's identifier.
    pub fn get_id(&self) -> (r: u64)
        ensures
            r == self.id,
    {
        self.id
    }

    /// A report is valid when it names its work item.
    pub fn is_valid(&self) -> (r: bool)
        ensures
            r == (self.wp_formatted_id is Some),
    {
        self.wp_formatted_id.is_some()
    }

    /// The repository of the report, if any.
    pub fn get_repo_name(&self) -> (r: Option<&str>)
        ensures
            opt_str_view(r) == opt_view(self.repo_name),
    {
        match &self.repo_name {
            Some(n) => Some(n.as_str()),
            None => None,
        }
    }

    /// The pull request of the report, if any.
    pub fn get_pr_number(&self) -> (r: Option<u64>)
        ensures
            r == self.pr_number,
    {
        self.pr_number
    }
}

/// What the consumer does with a time-spent report.
pub enum TimeSpentAction {
    /// Publish the report to the time-spent topic under the report's
    /// identifier.
    Publish { key: u64 },
    /// Tell the pull request that the report is not valid.
    Complain { repo: String, pr: u64, text: String },
    /// Nothing can be done.
    Ignore,
}

/// The comment posted on a pull request whose time-spent report is invalid.
pub open spec fn invalid_report_text() -> Seq<char> {
    "Time And Task: not a valid time spent, please make sure your PR title to follow the guideline."@
}

/// What the consumer does with `tp`: a valid report is published under its
/// identifier; an invalid one on a pull request is answered there; any other
/// is dropped.
pub fn handle_time_spent(tp: &TimeSpent) -> (r: TimeSpentAction)
    ensures
        tp.wp_formatted_id is Some ==> r == (TimeSpentAction::Publish { key: tp.id }),
        tp.wp_formatted_id is None && tp.repo_name is Some && tp.pr_number is Some ==> (
        r matches TimeSpentAction::Complain { repo, pr, text } && repo@ == tp.repo_name->Some_0@
            && pr == tp.pr_number->Some_0 && text@ == invalid_report_text()),
        tp.wp_formatted_id is None && !(tp.repo_name is Some && tp.pr_number is Some) ==> r
            == TimeSpentAction::Ignore,
{
    if tp.is_valid() {
        return TimeSpentAction::Publish { key: tp.get_id() };
    }
    match (tp.get_repo_name(), tp.get_pr_number()) {
        (Some(repo), Some(pr)) => TimeSpentAction::Complain {
            repo: repo.to_string(),
            pr,
            text: "Time And Task: not a valid time spent, please make sure your PR title to follow the guideline.".to_string(),
        },
        _ => TimeSpentAction::Ignore,
    }
}

/// Calls `rand::random::<u64>()` for a report identifier; nothing is claimed
/// of the value, which is random.
#[verifier::external_body]
pub(crate) fn random_id() -> u64 {
    rand::random::<u64>()
}

/// The time-spent report, with identifier `k`, that the comment `s` makes on
/// `event`, if it holds one and the event names its work item.
pub fn time_spent_with_id<T: TimeSpentTrait>(
    s: &str,
    event: &T,
    task_name: Option<String>,
    k: u64,
) -> (r: Option<TimeSpent>)
    ensures
        r is Some <==> (time_value(s@) is Some && event.work_product_view() is Some),
        r matches Some(tp) ==> tp.reports(s@, event, task_name),
        r matches Some(tp) ==> tp.wp_formatted_id is Some,
        r matches Some(tp) ==> tp.id == k,
{
    let user = event.get_user_name();
    let wp = event.get_work_product();
    let v = chars_of(s);
    match find_time_value(&v) {
        Some((a, b)) => match wp {
            Some(wp) => {
                let repo_name = match event.get_repo_name() {
                    Some(n) => Some(n.to_string()),
                    None => None,
                };
                Some(
                    TimeSpent {
                        user,
                        login: event.get_login_name().to_string(),
                        value: string_of(&v, a, b),
                        id: k,
                        wp_formatted_id: Some(wp),
                        repo_name,
                        pr_number: event.get_pr_number(),
                        task_name,
                    },
                )
            },
            None => None,
        },
        None => None,
    }
}

/// The time-spent report that the comment `s` makes on `event`, if it holds
/// one and the event names its work item.  The report's identifier is a
/// random number drawn for it (see [`time_spent_with_id`]).
pub fn get_time_spent<T: TimeSpentTrait>(s: &str, event: &T, task_name: Option<String>) -> (r:
    Option<TimeSpent>)
    ensures
        r is Some <==> (time_value(s@) is Some && event.work_product_view() is Some),
        r matches Some(tp) ==> tp.reports(s@, event, task_name),
        r matches Some(tp) ==> tp.wp_formatted_id is Some,
{
    let k = random_id();
    time_spent_with_id(s, event, task_name, k)
}

} // verus!

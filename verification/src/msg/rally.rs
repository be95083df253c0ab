//! Deciding what a Rally event (or any event that can carry a time-spent
//! report) asks for in the second generation of message handling.

use vstd::prelude::*;
use crate::constants::{contains_time_spent_pattern, time_value, law_time_value_iff_report};
use super::Message;
use super::time_spent::{get_time_spent, TimeSpentTrait};

verus! {

/// The time-spent message that `event`'s text makes under `task_name`, if
/// its text holds a report and the event names its work item.
pub fn handle_rally_message<T: TimeSpentTrait>(event: &T, task_name: Option<String>) -> (r:
    Option<Message>)
    ensures
        event.code_view() is None ==> r is None,
        event.code_view() matches Some(c) ==> match r {
            Some(Message::TimeSpent(tp)) => tp.reports(c, event, task_name) && tp.wp_formatted_id is Some,
            None => time_value(c) is None || event.work_product_view() is None,
            _ => false,
        },
{
    let comment = match event.get_code() {
        Some(c) => c,
        None => return None,
    };
    proof {
        law_time_value_iff_report(comment@);
    }
    if !contains_time_spent_pattern(comment) {
        return None;
    }
    match get_time_spent(comment, event, task_name) {
        Some(tp) => Some(Message::TimeSpent(tp)),
        None => None,
    }
}

} // verus!

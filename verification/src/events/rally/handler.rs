//! Deciding what a Rally event (or any event that can carry a time-spent
//! report) asks for: the time-spent report its text makes, if any.  The
//! program sends the resulting message.

use vstd::prelude::*;
use crate::constants::time_value;
use crate::events::msg::Message;
use crate::msg::time_spent::{get_time_spent, TimeSpentTrait};

verus! {

/// The time-spent message that `event`'s text makes under `task_name`, if
/// any.
pub fn handle_rally_event<T: TimeSpentTrait>(event: &T, task_name: Option<String>) -> (r: Option<
    Message,
>)
    ensures
        event.code_view() is None ==> r is None,
        event.code_view() matches Some(c) ==> match r {
            Some(Message::TimeSpent(tp)) => tp.reports(c, event, task_name) && tp.wp_formatted_id is Some,
            None => time_value(c) is None || event.work_product_view() is None,
            _ => false,
        },
{
    let comment = match event.get_code() {
        Some(c) => c,
        None => return None,
    };
    match get_time_spent(comment, event, task_name) {
        Some(tp) => Some(Message::TimeSpent(tp)),
        None => None,
    }
}

} // verus!

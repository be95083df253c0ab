//! Messages that GitHub and Rally events produce for the message consumer.

pub mod task;

use vstd::prelude::*;
use task::Task;
use crate::msg::time_spent::TimeSpent;

verus! {

/// A message for the consumer: a task for the backend, or a time-spent
/// report.
pub enum Message {
    Task(Task),
    TimeSpent(TimeSpent),
}

} // verus!

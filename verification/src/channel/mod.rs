//! The first generation's messages and their producer.

pub mod producer;

use vstd::prelude::*;
use crate::backend_task::Task;
use crate::time_spent::TimeSpent;

verus! {

/// A message for the consumer: a backend task, or a time-spent report.
pub enum Message {
    BackendTask(Task),
    TimeSpent(TimeSpent),
}

} // verus!

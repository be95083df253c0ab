//! The second generation of message handling: time-spent reports and backend
//! tasks produced from GitHub and Rally events.

pub mod github;
pub mod rally;
pub mod task;
pub mod time_spent;

use vstd::prelude::*;
use task::BackendTask;
use time_spent::TimeSpent;

verus! {

/// A message for the consumer: a backend task, or a time-spent report.
pub enum Message {
    Task(BackendTask),
    TimeSpent(TimeSpent),
}

} // verus!

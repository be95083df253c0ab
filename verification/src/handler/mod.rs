//! Handling of Rally events by any event type that can carry a time-spent
//! report.

pub mod rally;

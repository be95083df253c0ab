//! The first generation's Rally events.

pub mod rally;

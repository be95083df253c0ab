//! The current generation of event handling: GitHub and Rally webhook events
//! and the messages they produce.

pub mod github;
pub mod msg;
pub mod rally;

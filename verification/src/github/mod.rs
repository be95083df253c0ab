//! The first generation of GitHub event handling.

pub mod comment;
pub mod event;
pub mod issue;
pub mod repo;
pub mod sender;

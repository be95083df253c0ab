//! Verified core of a webhook gateway: recognising keywords in GitHub and
//! Rally comments, extracting work items, time-spent entries and build tasks,
//! and deciding which messages a webhook event produces.

pub mod text;
pub mod constants;
pub mod colon_fields;
pub mod config_env;

pub mod events;
pub mod msg;

pub mod backend_task;
pub mod channel;
pub mod event;
pub mod github;
pub mod handler;
pub mod time_spent;

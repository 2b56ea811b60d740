//! A verified file-change filtering pipeline: glob-based path rules,
//! normalization of raw notification tags into a canonical event-kind
//! taxonomy with an allowlist, their composition into a filter, and the
//! state machine of the watch-and-dispatch loop built on top of them.

pub mod config;
pub mod glob;
pub mod pipeline;
pub mod watch;
pub mod kinds;

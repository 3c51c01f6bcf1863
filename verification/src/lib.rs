//! Watches a live audio-routing graph and derives a single boolean: whether a
//! monitored device is currently being recorded from. Nodes are classified as
//! in scope or ignored by exact name matching; links whose output endpoint is
//! in scope and whose input endpoint is not ignored count as active recording
//! links; the on-air flag is true exactly when at least one active recording
//! link exists, and a hook actor is invoked exactly once per flag transition.

pub mod actor;
pub mod error;
pub mod parse;
pub mod props;
pub mod state;
pub mod watcher;

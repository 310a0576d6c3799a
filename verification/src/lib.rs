//! Workflow helper for a documentation repository that is organized by
//! language and platform.
//!
//! The crate covers the page-path resolution rules, the page lifecycle
//! operations (add, alias, translate, edit, view), the git workflow
//! sequencing (update, branch, pull request) and the interpretation of
//! child-process outcomes.  Everything that touches the outside world
//! (spawning programs, reading and writing files) is driven by a thin
//! caller that hands the results back in as plain values.

pub mod args;
pub mod commands;
pub mod error;
pub mod text;
pub mod util;

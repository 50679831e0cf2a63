//! Watch a path and re-run a command on every write, optionally supervising
//! a long-lived companion command.
//!
//! The library holds the logic: substitution of the watched path into command
//! templates, resolution of a command into program and arguments, and the
//! decisions of the dispatch loop and of the companion supervisor. Running
//! processes and watching the filesystem are left to the caller, which feeds
//! what happened to these decisions.

pub mod command;
pub mod config;
pub mod dispatch;
pub mod supervisor;
pub mod template;

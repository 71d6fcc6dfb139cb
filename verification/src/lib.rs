//! Verified core of an environment bootstrap tool.
//!
//! The crate decides *what* has to happen when a developer machine is set
//! up from a profile: which package-manager commands to issue, how their
//! results become per-tool outcomes, how a batch of outcomes is assembled in
//! input order while progress is counted, and how the stages of a profile
//! follow one another. Running commands, prompting the user and touching
//! the file system is left to the caller, which feeds the results back in.

pub mod batch;
pub mod cli;
pub mod command;
pub mod config;
pub mod global_config;
pub mod init;
pub mod installer;
pub mod outcome;
pub mod progress;
pub mod setup;
pub mod stage;
pub mod style;
pub mod system;
pub mod tools;

//! Orchestration of per-component clean commands for a multi-component
//! application.
//!
//! An application manifest lists named components, each with an optional build
//! and an optional clean command. This crate holds the manifest model, the
//! selection of the components to act on, the resolution of the directory a
//! command runs in, and the sequencing of the clean commands: which command is
//! started next and what the termination of a command means for the run. It
//! starts no process itself: a caller performs each command that the run hands
//! out and reports how it ended.

pub mod laws;
pub mod manifest;
pub mod paths;
pub mod run;
pub mod runner;
pub mod select;
pub mod text;

pub use crate::paths::{absolutize, construct_workdir, parent_dir};

//! A minimal node-level component orchestrator.
//!
//! A declarative registry names components (source location, post-fetch
//! commands, run commands). The pipeline fetches each component's source
//! into a staging area, promotes the staging area to a live area, and
//! launches each component's commands, one concurrent task per component.
//!
//! This crate holds the decision core of that pipeline: the directory
//! layout, the registry, command-line parsing, the per-component command
//! sequencing rules, and the plans and reports of the two entry points
//! (update and run). The caller performs the filesystem and process work
//! that the plans describe and feeds the observed outcomes back in.

pub mod command;
pub mod model;
pub mod orchestrator;
pub mod paths;
pub mod registry;
pub mod runner;

pub use command::{parse_command, CommandLine};
pub use orchestrator::{FetchOutcome, PipelineError, RunPlan, TaskSpec, UpdatePlan};
pub use paths::join_path;
pub use registry::{Component, ComponentManager, PathConfig};
pub use runner::{CommandEvent, CommandRunner, ExecutionResult};

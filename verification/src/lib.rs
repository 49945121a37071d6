//! Client-side model of a hosted pipeline service: the data exchanged with
//! the service, the requests of its REST surface, the settings of a run, the
//! loader that turns a directory listing into payloads, and the decisions of
//! the command-line front end.
//!
//! Everything here works on plain values. Reading the environment and the
//! file system, and sending requests, is left to the caller.

pub mod cli;
pub mod endpoints;
pub mod loader;
pub mod settings;
pub mod sync;
pub mod types;

pub use crate::cli::{Cli, Commands, PipelineCommands};
pub use crate::endpoints::DeepsetCloudApi;
pub use crate::settings::DeepsetCloudSettings;

//! Command builder and result reader for driving the Conan package manager
//! from a build pipeline.
//!
//! The crate renders the argument list of `conan install` from a frozen
//! configuration, reads what the tool printed (its version, its profiles, its
//! remotes) and turns the build information file that the tool generated into
//! a typed model. It performs no input or output of its own: whatever comes
//! from the host (environment variables, the working directory, the text that
//! a process printed) is handed in as a plain value.

pub mod build_info;
pub mod host;
pub mod install;
pub mod json;
pub mod listing;
pub mod path;
pub mod text;
pub mod version;

pub use crate::host::{find_program, find_version, Environment};
pub use crate::install::{BuildPolicy, InstallCommand, InstallCommandBuilder};
pub use crate::listing::{get_profile_list, get_remote_list, Remote};

//! Management of compiler toolchains for a sandboxed build system.
//!
//! A [`Toolchain`] identifies a compiler toolchain either by a release name on
//! the distribution channel (`Dist`) or by the merge-commit hash of a CI
//! artifact (`CI`). The library computes the canonical identifier of each
//! variant, builds the exact argument vectors handed to the external installer
//! tools, classifies failures, and converts toolchains to and from a
//! discriminated record for persistence. External commands are issued through
//! the [`cmd::Workspace`] trait; the library itself spawns no process.

pub mod cmd;
pub mod record;
pub mod toolchain;

pub use cmd::{Binary, CommandFailure, Invocation, RecordingWorkspace, Workspace};
pub use record::ToolchainRecord;
pub use toolchain::{CargoBin, Error, Toolchain};

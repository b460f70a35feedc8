//! Translation layer that lets a build orchestrator drive `gccrs` through the
//! command-line contract it normally uses for `rustc`.
//!
//! The library parses a `rustc`-style invocation, derives one `gccrs`
//! invocation per requested crate type, formats the flag list each of those
//! invocations needs, plans the order in which they (and any follow-up
//! archive command) must run, and translates the target-option dump that
//! `gccrs` produces into the textual configuration listing `rustc` prints.
//! Process spawning, environment reading and file reading live outside the
//! library; everything here works on plain values.

mod args;
mod config;
mod env_args;
mod error;
mod gccrs;
mod rustc_args;
mod text;

pub use args::Args;
pub use args::ArgsCollection;
pub use args::CrateType;
pub use config::DumpedOption;
pub use config::GccrsConfig;
pub use env_args::EnvArgs;
pub use error::Error;
pub use gccrs::BuildPlan;
pub use gccrs::Command;
pub use gccrs::Dispatcher;
pub use gccrs::Gccrs;
pub use rustc_args::RustcArgs;

use vstd::prelude::*;

verus! {

/// Marker for the outer wrapper role of the program: spawning the build
/// orchestrator with this program set as its compiler wrapper. The
/// spawning itself is process work and lives outside the library.
pub struct Wrapper;

} // verus!

//! A small configuration-and-launch library for running a Java-based game
//! server as a child process.
//!
//! The library has two halves. [`MinecraftServerBuilder`] accumulates
//! optional settings (working directory, jar name, interpreter path, extra
//! interpreter arguments, a GUI flag) and validates them when the caller
//! finalizes the configuration. [`MinecraftServer`] is the validated,
//! immutable launch configuration; it knows the exact command line the
//! child process is started with.
//!
//! Validation needs two facts only the environment can supply: whether the
//! working directory exists on disk, and whether invoking the interpreter
//! with a version query succeeds. Callers probe for those facts themselves
//! (the targets to probe come from [`MinecraftServerBuilder::probe_targets`])
//! and pass the outcomes to [`MinecraftServerBuilder::build`], which makes
//! every validation decision and is verified to decide exactly as
//! [`build_spec`] says.

mod builder;
mod error;
mod server;

pub use builder::build_spec;
pub use builder::lemma_build_deterministic;
pub use builder::lemma_build_success_iff;
pub use builder::lemma_invalid_java_path;
pub use builder::lemma_invalid_server_path;
pub use builder::lemma_missing_server_jar;
pub use builder::lemma_missing_server_path;
pub use builder::resolved_java_path;
pub use builder::view_build_result;
pub use builder::BuilderView;
pub use builder::MinecraftServerBuilder;
pub use error::spec_message;
pub use error::BuildErrorView;
pub use error::MinecraftServerBuildError;
pub use server::spec_command;
pub use server::MinecraftServer;
pub use server::ServerView;

use vstd::prelude::*;
use vstd::string::StringExecFns;

verus! {

/// An error reported while validating a configuration or launching the
/// server. The first four variants are validation failures, in the order the
/// checks run; `CommandExecutionError` carries the description of an
/// operating-system failure met while starting or driving the child process.
#[derive(Debug, PartialEq, Eq)]
pub enum MinecraftServerBuildError {
    MissingServerPath,
    MissingServerJar,
    InvalidServerPath(String),
    InvalidJavaPath(String),
    CommandExecutionError(String),
}

/// The mathematical value of a [`MinecraftServerBuildError`]: the same
/// variants, with every path or description abstracted to its character
/// sequence.
pub ghost enum BuildErrorView {
    MissingServerPath,
    MissingServerJar,
    InvalidServerPath(Seq<char>),
    InvalidJavaPath(Seq<char>),
    CommandExecutionError(Seq<char>),
}

impl View for MinecraftServerBuildError {
    type V = BuildErrorView;

    open spec fn view(&self) -> BuildErrorView {
        match self {
            MinecraftServerBuildError::MissingServerPath => BuildErrorView::MissingServerPath,
            MinecraftServerBuildError::MissingServerJar => BuildErrorView::MissingServerJar,
            MinecraftServerBuildError::InvalidServerPath(p) => BuildErrorView::InvalidServerPath(
                p@,
            ),
            MinecraftServerBuildError::InvalidJavaPath(p) => BuildErrorView::InvalidJavaPath(p@),
            MinecraftServerBuildError::CommandExecutionError(d) => (
            BuildErrorView::CommandExecutionError(d@)
            ),
        }
    }
}

/// The human-readable description of an error, with the offending value
/// appended where the variant carries one.
pub open spec fn spec_message(e: BuildErrorView) -> Seq<char> {
    match e {
        BuildErrorView::MissingServerPath => "server path is missing"@,
        BuildErrorView::MissingServerJar => "server jar file is missing"@,
        BuildErrorView::InvalidServerPath(p) => "invalid server path: "@ + p,
        BuildErrorView::InvalidJavaPath(p) => "invalid Java path: "@ + p,
        BuildErrorView::CommandExecutionError(d) => "failed to execute command: "@ + d,
    }
}

impl MinecraftServerBuildError {
    /// A human-readable description of the error, carrying the offending
    /// path or failure text so the caller can correct the configuration.
    pub fn message(&self) -> (r: String)
        ensures
            r@ == spec_message(self@),
    {
        match self {
            MinecraftServerBuildError::MissingServerPath => "server path is missing".to_owned(),
            MinecraftServerBuildError::MissingServerJar => "server jar file is missing".to_owned(),
            MinecraftServerBuildError::InvalidServerPath(p) => {
                let mut m = "invalid server path: ".to_owned();
                m.append(p.as_str());
                m
            },
            MinecraftServerBuildError::InvalidJavaPath(p) => {
                let mut m = "invalid Java path: ".to_owned();
                m.append(p.as_str());
                m
            },
            MinecraftServerBuildError::CommandExecutionError(d) => {
                let mut m = "failed to execute command: ".to_owned();
                m.append(d.as_str());
                m
            },
        }
    }
}

} // verus!

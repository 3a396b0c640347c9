//! Why a build fails, and what a build may warn about.
use vstd::prelude::*;
use crate::process::ExecutionError;

verus! {

/// The classes of failure, as an operator tells them apart.
#[derive(Debug, Clone, Copy, PartialEq, Eq, Structural)]
pub enum ErrorKind {
    /// The configuration is missing, malformed, or holds a value that can never work.
    Configuration,
    /// The project does not have what the configured build needs.
    Validation,
    /// An external command could not be started, ran too long, or failed.
    Execution,
    /// The build ran, but what it should have produced is not there.
    Artifact,
    /// A remote service could not be reached, or a stream to it broke.
    Transport,
    /// A remote service was reached and refused the request.
    RemoteRejection,
}

/// A failed build.
#[derive(Debug, Clone, PartialEq, Eq)]
pub enum BuildError {
    /// The script is empty or holds white space only.
    EmptyScript,
    /// The timeout is zero.
    InvalidTimeout,
    MissingProjectPath { path: String },
    OutputDirectoryUnavailable { path: String },
    /// The configured working directory does not exist under the project.
    MissingWorkingDirectory { path: String },
    /// The program could not be started.
    SpawnFailure { program: String },
    WaitFailure,
    /// The command was killed after the configured number of seconds.
    Timeout { seconds: u64 },
    /// The command ended with a status other than zero; no code when a signal ended it.
    NonZeroExit { code: Option<i32> },
    OutputUnreadable { path: String },
    MissingManifest { path: String },
    ToolchainUnavailable,
    /// The metadata query could not be run or did not succeed; carries what
    /// the query wrote to its error stream, which says why.
    MetadataQueryFailed { cause: ExecutionError, stderr: Vec<u8> },
    /// The metadata query succeeded, but its output is no metadata document.
    MetadataInvalid,
    PackageNotFound { name: String },
    NoPackagesFound,
    BinaryTargetNotFound { name: String, package: String },
    /// The package has no binary target; carries the names of the targets it has.
    NoBinaryTargets { package: String, available: Vec<String> },
    /// The build tool could not be started or waited for.
    BuildToolUnavailable,
    BuildToolFailed { code: Option<i32> },
    BinaryNotProduced { path: String },
    CopyFailed { from: String, to: String },
}

/// The mathematical content of a [`BuildError`].
pub enum BuildErrorView {
    EmptyScript,
    InvalidTimeout,
    MissingProjectPath { path: Seq<char> },
    OutputDirectoryUnavailable { path: Seq<char> },
    MissingWorkingDirectory { path: Seq<char> },
    SpawnFailure { program: Seq<char> },
    WaitFailure,
    Timeout { seconds: u64 },
    NonZeroExit { code: Option<i32> },
    OutputUnreadable { path: Seq<char> },
    MissingManifest { path: Seq<char> },
    ToolchainUnavailable,
    MetadataQueryFailed { cause: ExecutionError, stderr: Seq<u8> },
    MetadataInvalid,
    PackageNotFound { name: Seq<char> },
    NoPackagesFound,
    BinaryTargetNotFound { name: Seq<char>, package: Seq<char> },
    NoBinaryTargets { package: Seq<char>, available: Seq<Seq<char>> },
    BuildToolUnavailable,
    BuildToolFailed { code: Option<i32> },
    BinaryNotProduced { path: Seq<char> },
    CopyFailed { from: Seq<char>, to: Seq<char> },
}

impl View for BuildError {
    type V = BuildErrorView;

    open spec fn view(&self) -> BuildErrorView {
        match *self {
            BuildError::EmptyScript => BuildErrorView::EmptyScript,
            BuildError::InvalidTimeout => BuildErrorView::InvalidTimeout,
            BuildError::MissingProjectPath { path } => BuildErrorView::MissingProjectPath {
                path: path@,
            },
            BuildError::OutputDirectoryUnavailable {
                path,
            } => BuildErrorView::OutputDirectoryUnavailable { path: path@ },
            BuildError::MissingWorkingDirectory {
                path,
            } => BuildErrorView::MissingWorkingDirectory { path: path@ },
            BuildError::SpawnFailure { program } => BuildErrorView::SpawnFailure {
                program: program@,
            },
            BuildError::WaitFailure => BuildErrorView::WaitFailure,
            BuildError::Timeout { seconds } => BuildErrorView::Timeout { seconds },
            BuildError::NonZeroExit { code } => BuildErrorView::NonZeroExit { code },
            BuildError::OutputUnreadable { path } => BuildErrorView::OutputUnreadable {
                path: path@,
            },
            BuildError::MissingManifest { path } => BuildErrorView::MissingManifest {
                path: path@,
            },
            BuildError::ToolchainUnavailable => BuildErrorView::ToolchainUnavailable,
            BuildError::MetadataQueryFailed { cause, stderr } => BuildErrorView::MetadataQueryFailed {
                cause,
                stderr: stderr@,
            },
            BuildError::MetadataInvalid => BuildErrorView::MetadataInvalid,
            BuildError::PackageNotFound { name } => BuildErrorView::PackageNotFound {
                name: name@,
            },
            BuildError::NoPackagesFound => BuildErrorView::NoPackagesFound,
            BuildError::BinaryTargetNotFound {
                name,
                package,
            } => BuildErrorView::BinaryTargetNotFound { name: name@, package: package@ },
            BuildError::NoBinaryTargets { package, available } => BuildErrorView::NoBinaryTargets {
                package: package@,
                available: available.deep_view(),
            },
            BuildError::BuildToolUnavailable => BuildErrorView::BuildToolUnavailable,
            BuildError::BuildToolFailed { code } => BuildErrorView::BuildToolFailed { code },
            BuildError::BinaryNotProduced { path } => BuildErrorView::BinaryNotProduced {
                path: path@,
            },
            BuildError::CopyFailed { from, to } => BuildErrorView::CopyFailed {
                from: from@,
                to: to@,
            },
        }
    }
}

impl BuildErrorView {
    /// The class of this failure.
    pub open spec fn kind(self) -> ErrorKind {
        match self {
            BuildErrorView::EmptyScript | BuildErrorView::InvalidTimeout => ErrorKind::Configuration,
            BuildErrorView::MissingProjectPath { .. }
            | BuildErrorView::MissingWorkingDirectory { .. }
            | BuildErrorView::MissingManifest { .. }
            | BuildErrorView::ToolchainUnavailable
            | BuildErrorView::MetadataInvalid
            | BuildErrorView::PackageNotFound { .. }
            | BuildErrorView::NoPackagesFound
            | BuildErrorView::BinaryTargetNotFound { .. }
            | BuildErrorView::NoBinaryTargets { .. } => ErrorKind::Validation,
            BuildErrorView::OutputDirectoryUnavailable { .. }
            | BuildErrorView::SpawnFailure { .. }
            | BuildErrorView::WaitFailure
            | BuildErrorView::Timeout { .. }
            | BuildErrorView::NonZeroExit { .. }
            | BuildErrorView::MetadataQueryFailed { .. }
            | BuildErrorView::BuildToolUnavailable
            | BuildErrorView::BuildToolFailed { .. } => ErrorKind::Execution,
            BuildErrorView::OutputUnreadable { .. }
            | BuildErrorView::BinaryNotProduced { .. }
            | BuildErrorView::CopyFailed { .. } => ErrorKind::Artifact,
        }
    }

    /// Failures known before any external command of the build is started.
    pub open spec fn fails_fast(self) -> bool {
        self.kind() == ErrorKind::Configuration || self.kind() == ErrorKind::Validation
    }
}

/// The failure of a script build that stands for a failed command of the
/// given program.
pub open spec fn script_failure(e: ExecutionError, program: Seq<char>) -> BuildErrorView {
    match e {
        ExecutionError::SpawnFailure => BuildErrorView::SpawnFailure { program },
        ExecutionError::WaitFailure => BuildErrorView::WaitFailure,
        ExecutionError::Timeout(seconds) => BuildErrorView::Timeout { seconds },
        ExecutionError::NonZeroExit(code) => BuildErrorView::NonZeroExit { code },
    }
}

impl BuildError {
    /// The class of this failure.
    pub fn kind(&self) -> (k: ErrorKind)
        ensures
            k == self@.kind(),
    {
        match self {
            BuildError::EmptyScript | BuildError::InvalidTimeout => ErrorKind::Configuration,
            BuildError::MissingProjectPath { .. }
            | BuildError::MissingWorkingDirectory { .. }
            | BuildError::MissingManifest { .. }
            | BuildError::ToolchainUnavailable
            | BuildError::MetadataInvalid
            | BuildError::PackageNotFound { .. }
            | BuildError::NoPackagesFound
            | BuildError::BinaryTargetNotFound { .. }
            | BuildError::NoBinaryTargets { .. } => ErrorKind::Validation,
            BuildError::OutputDirectoryUnavailable { .. }
            | BuildError::SpawnFailure { .. }
            | BuildError::WaitFailure
            | BuildError::Timeout { .. }
            | BuildError::NonZeroExit { .. }
            | BuildError::MetadataQueryFailed { .. }
            | BuildError::BuildToolUnavailable
            | BuildError::BuildToolFailed { .. } => ErrorKind::Execution,
            BuildError::OutputUnreadable { .. }
            | BuildError::BinaryNotProduced { .. }
            | BuildError::CopyFailed { .. } => ErrorKind::Artifact,
        }
    }

    /// The failure of a script build that stands for a failed command of the
    /// given program.
    pub fn from_execution(e: ExecutionError, program: &str) -> (r: BuildError)
        ensures
            r@ == script_failure(e, program@),
    {
        match e {
            ExecutionError::SpawnFailure => BuildError::SpawnFailure {
                program: program.to_string(),
            },
            ExecutionError::WaitFailure => BuildError::WaitFailure,
            ExecutionError::Timeout(seconds) => BuildError::Timeout { seconds },
            ExecutionError::NonZeroExit(code) => BuildError::NonZeroExit { code },
        }
    }
}

/// What a build may warn about. A warning never changes the outcome.
#[derive(Debug, Clone, PartialEq, Eq)]
pub enum BuildWarning {
    /// The script holds a pattern of the list of dangerous commands.
    DangerousCommand { pattern: String },
    /// The timeout is above an hour.
    LongTimeout { seconds: u64, minutes: u64 },
    /// The build succeeded and left the output directory empty.
    EmptyOutput,
}

/// The mathematical content of a [`BuildWarning`].
pub enum BuildWarningView {
    DangerousCommand { pattern: Seq<char> },
    LongTimeout { seconds: u64, minutes: u64 },
    EmptyOutput,
}

impl View for BuildWarning {
    type V = BuildWarningView;

    open spec fn view(&self) -> BuildWarningView {
        match *self {
            BuildWarning::DangerousCommand { pattern } => BuildWarningView::DangerousCommand {
                pattern: pattern@,
            },
            BuildWarning::LongTimeout { seconds, minutes } => BuildWarningView::LongTimeout {
                seconds,
                minutes,
            },
            BuildWarning::EmptyOutput => BuildWarningView::EmptyOutput,
        }
    }
}

impl DeepView for BuildWarning {
    type V = BuildWarningView;

    open spec fn deep_view(&self) -> BuildWarningView {
        self@
    }
}

} // verus!

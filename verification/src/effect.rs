//! What a build asks of its caller, and what the caller answers.
//!
//! A build backend is a small machine. In each stage it requests one [`Effect`]; the
//! caller performs it and hands back a [`Reply`]; the backend then moves to the
//! next stage, succeeds, or fails. No backend touches the file system or
//! starts a process itself.
use vstd::prelude::*;
use crate::error::BuildError;
use crate::error::BuildErrorView;
use crate::error::BuildWarning;
use crate::error::BuildWarningView;
use crate::metadata::CargoMetadata;
use crate::metadata::CargoMetadataView;
use crate::process::ExitOutcome;
use crate::process::ProcessExecution;
use crate::process::ProcessExecutionView;
use crate::process::RaceOutcome;
use crate::text::same_text;

verus! {

/// The family of operating systems a build runs on.
#[derive(Debug, Clone, Copy, PartialEq, Eq, Structural)]
pub enum Platform {
    Unix,
    Windows,
}

impl Platform {
    /// The platform that an operating system's name stands for.
    pub open spec fn of_os(name: Seq<char>) -> Platform {
        if name == "windows"@ {
            Platform::Windows
        } else {
            Platform::Unix
        }
    }

    /// The platform that an operating system's name stands for: `Windows` for
    /// `"windows"`, `Unix` for every other name.
    pub fn from_os(name: &str) -> (p: Platform)
        ensures
            p == Platform::of_os(name@),
    {
        if same_text(name, "windows") {
            Platform::Windows
        } else {
            Platform::Unix
        }
    }
}

/// The surroundings of one build: where the project is and where the output goes.
#[derive(Debug, Clone, PartialEq, Eq)]
pub struct BuildContext {
    pub platform: Platform,
    pub project_path: String,
    pub output_path: String,
}

/// The mathematical content of a [`BuildContext`].
pub struct BuildContextView {
    pub platform: Platform,
    pub project_path: Seq<char>,
    pub output_path: Seq<char>,
}

impl View for BuildContext {
    type V = BuildContextView;

    open spec fn view(&self) -> BuildContextView {
        BuildContextView {
            platform: self.platform,
            project_path: self.project_path@,
            output_path: self.output_path@,
        }
    }
}

/// One thing a backend asks its caller to do.
#[derive(Debug, Clone, PartialEq, Eq)]
pub enum Effect {
    /// Tell whether the path exists. Answered by [`Reply::Exists`].
    PathExists { path: String },
    /// Create the directory and its parents. Answered by [`Reply::Created`].
    CreateDirAll { path: String },
    /// Tell whether the directory has an entry. Answered by [`Reply::Entries`].
    HasEntries { path: String },
    /// Run the command against its deadline. Answered by [`Reply::Raced`].
    RunWithDeadline { execution: ProcessExecution },
    /// Run the command to its end. Answered by [`Reply::Ran`].
    Run { execution: ProcessExecution },
    /// Run the command to its end and collect its output. Answered by [`Reply::Captured`].
    RunCaptured { execution: ProcessExecution },
    /// Read the document as package metadata. Answered by [`Reply::Metadata`].
    ParseMetadata { document: Vec<u8> },
    /// Copy the file. Answered by [`Reply::Copied`].
    CopyFile { from: String, to: String },
}

/// The mathematical content of an [`Effect`].
pub enum EffectView {
    PathExists { path: Seq<char> },
    CreateDirAll { path: Seq<char> },
    HasEntries { path: Seq<char> },
    RunWithDeadline { execution: ProcessExecutionView },
    Run { execution: ProcessExecutionView },
    RunCaptured { execution: ProcessExecutionView },
    ParseMetadata { document: Seq<u8> },
    CopyFile { from: Seq<char>, to: Seq<char> },
}

impl View for Effect {
    type V = EffectView;

    open spec fn view(&self) -> EffectView {
        match *self {
            Effect::PathExists { path } => EffectView::PathExists { path: path@ },
            Effect::CreateDirAll { path } => EffectView::CreateDirAll { path: path@ },
            Effect::HasEntries { path } => EffectView::HasEntries { path: path@ },
            Effect::RunWithDeadline { execution } => EffectView::RunWithDeadline {
                execution: execution@,
            },
            Effect::Run { execution } => EffectView::Run { execution: execution@ },
            Effect::RunCaptured { execution } => EffectView::RunCaptured { execution: execution@ },
            Effect::ParseMetadata { document } => EffectView::ParseMetadata {
                document: document@,
            },
            Effect::CopyFile { from, to } => EffectView::CopyFile { from: from@, to: to@ },
        }
    }
}

impl EffectView {
    /// Whether the effect starts an external command.
    pub open spec fn starts_process(self) -> bool {
        self is RunWithDeadline || self is Run || self is RunCaptured
    }

    /// The command that the effect starts, where it starts one.
    pub open spec fn execution(self) -> ProcessExecutionView
        recommends
            self.starts_process(),
    {
        match self {
            EffectView::RunWithDeadline { execution } => execution,
            EffectView::Run { execution } => execution,
            EffectView::RunCaptured { execution } => execution,
            _ => arbitrary(),
        }
    }
}

/// What the caller reports after performing an [`Effect`].
#[derive(Debug, Clone, PartialEq, Eq)]
pub enum Reply {
    Exists { exists: bool },
    Created { created: bool },
    /// Whether the directory has an entry; nothing where it could not be read.
    Entries { has_entries: Option<bool> },
    Raced { race: RaceOutcome },
    Ran { exit: ExitOutcome },
    /// How the command ended, and what it wrote to its two output streams.
    Captured { exit: ExitOutcome, stdout: Vec<u8>, stderr: Vec<u8> },
    /// The metadata read from a document; nothing where the document holds none.
    Metadata { metadata: Option<CargoMetadata> },
    Copied { copied: bool },
}

/// The mathematical content of a [`Reply`].
pub enum ReplyView {
    Exists { exists: bool },
    Created { created: bool },
    Entries { has_entries: Option<bool> },
    Raced { race: RaceOutcome },
    Ran { exit: ExitOutcome },
    Captured { exit: ExitOutcome, stdout: Seq<u8>, stderr: Seq<u8> },
    Metadata { metadata: Option<CargoMetadataView> },
    Copied { copied: bool },
}

impl View for Reply {
    type V = ReplyView;

    open spec fn view(&self) -> ReplyView {
        match *self {
            Reply::Exists { exists } => ReplyView::Exists { exists },
            Reply::Created { created } => ReplyView::Created { created },
            Reply::Entries { has_entries } => ReplyView::Entries { has_entries },
            Reply::Raced { race } => ReplyView::Raced { race },
            Reply::Ran { exit } => ReplyView::Ran { exit },
            Reply::Captured { exit, stdout, stderr } => ReplyView::Captured {
                exit,
                stdout: stdout@,
                stderr: stderr@,
            },
            Reply::Metadata { metadata } => ReplyView::Metadata {
                metadata: match metadata {
                    Some(m) => Some(m@),
                    None => None,
                },
            },
            Reply::Copied { copied } => ReplyView::Copied { copied },
        }
    }
}

impl EffectView {
    /// Whether a reply is of the kind that answers the effect.
    pub open spec fn answered_by(self, reply: ReplyView) -> bool {
        match self {
            EffectView::PathExists { .. } => reply is Exists,
            EffectView::CreateDirAll { .. } => reply is Created,
            EffectView::HasEntries { .. } => reply is Entries,
            EffectView::RunWithDeadline { .. } => reply is Raced,
            EffectView::Run { .. } => reply is Ran,
            EffectView::RunCaptured { .. } => reply is Captured,
            EffectView::ParseMetadata { .. } => reply is Metadata,
            EffectView::CopyFile { .. } => reply is Copied,
        }
    }
}

/// What a finished build has to say besides having succeeded.
#[derive(Debug, Clone, Copy, PartialEq, Eq, Structural)]
pub struct BuildReport {
    /// The build left the output directory without any entry.
    pub output_empty: bool,
}

impl BuildReport {
    /// What a finished build warns about: an output directory left empty.
    pub open spec fn spec_warnings(self) -> Seq<BuildWarningView> {
        if self.output_empty {
            seq![BuildWarningView::EmptyOutput]
        } else {
            Seq::empty()
        }
    }

    /// What a finished build warns about. The build has succeeded all the same.
    pub fn warnings(&self) -> (found: Vec<BuildWarning>)
        ensures
            found.deep_view() == self.spec_warnings(),
    {
        let mut found: Vec<BuildWarning> = Vec::new();
        if self.output_empty {
            found.push(BuildWarning::EmptyOutput);
        }
        assert(found.deep_view() =~= self.spec_warnings());
        found
    }
}

/// Where a backend stands after a reply: in a stage, done, or failed.
#[derive(Debug, Clone, PartialEq, Eq)]
pub enum Step<S> {
    Continue { stage: S },
    Succeeded { report: BuildReport },
    Failed { error: BuildError },
}

/// The mathematical content of a [`Step`].
pub enum StepView<S> {
    Continue { stage: S },
    Succeeded { report: BuildReport },
    Failed { error: BuildErrorView },
}

impl<S: View> View for Step<S> {
    type V = StepView<S::V>;

    open spec fn view(&self) -> StepView<S::V> {
        match *self {
            Step::Continue { stage } => StepView::Continue { stage: stage@ },
            Step::Succeeded { report } => StepView::Succeeded { report },
            Step::Failed { error } => StepView::Failed { error: error@ },
        }
    }
}

} // verus!

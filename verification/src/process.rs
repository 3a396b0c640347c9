//! External commands: what to run, and what an ended run means.
//!
//! The library never starts a process. It describes one as a
//! [`ProcessExecution`], and judges what the caller's runner reports back.
use vstd::prelude::*;

verus! {

/// Where the standard streams of a command go.
#[derive(Debug, Clone, Copy, PartialEq, Eq, Structural)]
pub enum StdioMode {
    /// The command writes to the streams of the invoking process.
    Inherited,
    /// The output is collected: used where it has to be parsed.
    Captured,
}

/// One external command, described in full before it is started.
#[derive(Debug, Clone, PartialEq, Eq)]
pub struct ProcessExecution {
    pub command: String,
    pub args: Vec<String>,
    pub cwd: String,
    /// Variables set on top of the inherited environment, in order.
    pub env: Vec<(String, String)>,
    /// The deadline of the run in seconds, where it has one.
    pub timeout_seconds: Option<u64>,
    pub stdio: StdioMode,
    /// The process is killed when the task that governs it ends first.
    pub kill_on_cancel: bool,
}

/// The mathematical content of a [`ProcessExecution`].
pub struct ProcessExecutionView {
    pub command: Seq<char>,
    pub args: Seq<Seq<char>>,
    pub cwd: Seq<char>,
    pub env: Seq<(Seq<char>, Seq<char>)>,
    pub timeout_seconds: Option<u64>,
    pub stdio: StdioMode,
    pub kill_on_cancel: bool,
}

impl View for ProcessExecution {
    type V = ProcessExecutionView;

    open spec fn view(&self) -> ProcessExecutionView {
        ProcessExecutionView {
            command: self.command@,
            args: self.args.deep_view(),
            cwd: self.cwd@,
            env: self.env.deep_view(),
            timeout_seconds: self.timeout_seconds,
            stdio: self.stdio,
            kill_on_cancel: self.kill_on_cancel,
        }
    }
}

impl ProcessExecutionView {
    /// A command may be started only with a deadline that is positive, where it
    /// has one, and only as a process that cannot outlive its caller.
    pub open spec fn well_formed(self) -> bool {
        &&& self.kill_on_cancel
        &&& self.timeout_seconds matches Some(t) ==> t > 0
    }
}

/// How a started (or not started) process ended, as the runner saw it.
#[derive(Debug, Clone, Copy, PartialEq, Eq, Structural)]
pub enum ExitOutcome {
    /// The process could not be started.
    SpawnFailed,
    /// The process started, but waiting for it failed.
    WaitFailed,
    /// The process ended; the code is absent when a signal ended it.
    Exited(Option<i32>),
}

/// The result of racing a process against its deadline.
#[derive(Debug, Clone, Copy, PartialEq, Eq, Structural)]
pub enum RaceOutcome {
    /// The deadline passed first; the process was killed.
    TimedOut,
    /// The process ended before the deadline.
    Completed(ExitOutcome),
}

/// Why a command counts as failed.
#[derive(Debug, Clone, Copy, PartialEq, Eq, Structural)]
pub enum ExecutionError {
    SpawnFailure,
    WaitFailure,
    /// The deadline passed; carries the configured number of seconds.
    Timeout(u64),
    /// The process ended with a status other than zero.
    NonZeroExit(Option<i32>),
}

/// The verdict on an ended process: success is exit code zero, nothing else.
pub open spec fn exit_verdict(outcome: ExitOutcome) -> Result<(), ExecutionError> {
    match outcome {
        ExitOutcome::SpawnFailed => Err(ExecutionError::SpawnFailure),
        ExitOutcome::WaitFailed => Err(ExecutionError::WaitFailure),
        ExitOutcome::Exited(Some(code)) => if code == 0 {
            Ok(())
        } else {
            Err(ExecutionError::NonZeroExit(Some(code)))
        },
        ExitOutcome::Exited(None) => Err(ExecutionError::NonZeroExit(None)),
    }
}

/// The verdict on a process raced against a deadline of `timeout_seconds`.
pub open spec fn race_verdict(timeout_seconds: u64, outcome: RaceOutcome) -> Result<
    (),
    ExecutionError,
> {
    match outcome {
        RaceOutcome::TimedOut => Err(ExecutionError::Timeout(timeout_seconds)),
        RaceOutcome::Completed(exit) => exit_verdict(exit),
    }
}

/// Judges an ended process.
pub fn check_exit(outcome: ExitOutcome) -> (r: Result<(), ExecutionError>)
    ensures
        r == exit_verdict(outcome),
{
    match outcome {
        ExitOutcome::SpawnFailed => Err(ExecutionError::SpawnFailure),
        ExitOutcome::WaitFailed => Err(ExecutionError::WaitFailure),
        ExitOutcome::Exited(code) => {
            match code {
                Some(0) => Ok(()),
                _ => Err(ExecutionError::NonZeroExit(code)),
            }
        },
    }
}

/// Judges a process that ran against a deadline of `timeout_seconds`.
pub fn check_race(timeout_seconds: u64, outcome: RaceOutcome) -> (r: Result<(), ExecutionError>)
    ensures
        r == race_verdict(timeout_seconds, outcome),
{
    match outcome {
        RaceOutcome::TimedOut => Err(ExecutionError::Timeout(timeout_seconds)),
        RaceOutcome::Completed(exit) => check_exit(exit),
    }
}

/// A run succeeds exactly when the process ended by itself, in time, with
/// exit code zero.
pub proof fn lemma_success_is_exit_zero(timeout_seconds: u64, outcome: RaceOutcome)
    ensures
        race_verdict(timeout_seconds, outcome) is Ok <==> outcome == RaceOutcome::Completed(
            ExitOutcome::Exited(Some(0i32)),
        ),
        outcome is TimedOut <==> race_verdict(timeout_seconds, outcome) == Err::<
            (),
            ExecutionError,
        >(ExecutionError::Timeout(timeout_seconds)),
{
}

} // verus!

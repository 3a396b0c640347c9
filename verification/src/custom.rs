//! The script backend: a build that is one shell command of the user's.
//!
//! The script runs with the permissions of the process that starts it. The scan
//! for dangerous commands below is advice for the person who reads the
//! warnings; it stops nothing and isolates nothing.
use vstd::prelude::*;
use crate::effect::BuildContext;
use crate::effect::BuildContextView;
use crate::effect::BuildReport;
use crate::effect::Effect;
use crate::effect::EffectView;
use crate::effect::Platform;
use crate::effect::Reply;
use crate::effect::ReplyView;
use crate::effect::Step;
use crate::effect::StepView;
use crate::error::BuildError;
use crate::error::BuildErrorView;
use crate::error::BuildWarning;
use crate::error::BuildWarningView;
use crate::error::ErrorKind;
use crate::error::script_failure;
use crate::paths::joined;
use crate::paths::path_join;
use crate::paths::lies_within;
use crate::paths::path_lies_within;
use crate::process::ExitOutcome;
use crate::process::ProcessExecution;
use crate::process::ProcessExecutionView;
use crate::process::RaceOutcome;
use crate::process::StdioMode;
use crate::process::check_race;
use crate::process::race_verdict;
use crate::text::blank;
use crate::text::contains_text;
use crate::text::has_substring;
use crate::text::is_blank;

verus! {

/// A timeout above this many seconds earns a warning.
pub const LONG_TIMEOUT_SECONDS: u64 = 3600;

/// The timeout, in seconds, of a script build that configures none.
pub open spec fn spec_default_timeout() -> u64 {
    300
}

/// The timeout, in seconds, of a script build that configures none: five minutes.
pub fn default_timeout() -> (secs: u64)
    ensures
        secs == spec_default_timeout(),
{
    300
}

/// The shell of a script build that configures none.
pub open spec fn spec_default_shell(platform: Platform) -> Seq<char> {
    match platform {
        Platform::Windows => "cmd"@,
        Platform::Unix => "sh"@,
    }
}

/// The shell of a script build that configures none: `cmd` on Windows, `sh` elsewhere.
pub fn default_shell(platform: Platform) -> (shell: String)
    ensures
        shell@ == spec_default_shell(platform),
{
    match platform {
        Platform::Windows => "cmd".to_string(),
        Platform::Unix => "sh".to_string(),
    }
}

/// The arguments that make a platform's shell run the text that follows them.
pub open spec fn spec_shell_args(platform: Platform) -> Seq<Seq<char>> {
    match platform {
        Platform::Windows => seq!["/C"@],
        Platform::Unix => seq!["-c"@],
    }
}

/// The commands that earn a warning when a script holds them, in the order
/// in which they are looked for.
pub open spec fn spec_dangerous_patterns() -> Seq<Seq<char>> {
    seq!["rm -rf /"@, "format"@, "del /f /s /q"@, "sudo"@]
}

/// The commands that earn a warning when a script holds them.
pub fn dangerous_patterns() -> (patterns: Vec<&'static str>)
    ensures
        patterns.deep_view() == spec_dangerous_patterns(),
{
    let patterns = vec!["rm -rf /", "format", "del /f /s /q", "sudo"];
    assert(patterns.deep_view() =~= spec_dangerous_patterns());
    patterns
}

/// One warning for each of the first `n` patterns that the script holds, in order.
pub open spec fn dangerous_found(script: Seq<char>, patterns: Seq<Seq<char>>, n: nat) -> Seq<
    BuildWarningView,
>
    decreases n,
{
    if n == 0 {
        Seq::empty()
    } else {
        let earlier = dangerous_found(script, patterns, (n - 1) as nat);
        if has_substring(script, patterns[n - 1]) {
            earlier.push(BuildWarningView::DangerousCommand { pattern: patterns[n - 1] })
        } else {
            earlier
        }
    }
}

/// A build that runs a shell command of the user's.
#[derive(Debug, Clone, PartialEq, Eq)]
pub struct CustomBuild {
    /// The command text handed to the shell as one argument.
    pub script: String,
    /// The deadline of the script in seconds.
    pub timeout_seconds: u64,
    /// A directory below the project to run in, relative to the project;
    /// the project itself where absent.
    pub working_directory: Option<String>,
    /// The shell that runs the script.
    pub shell: String,
}

/// The mathematical content of a [`CustomBuild`].
pub struct CustomBuildView {
    pub script: Seq<char>,
    pub timeout_seconds: u64,
    pub working_directory: Option<Seq<char>>,
    pub shell: Seq<char>,
}

impl View for CustomBuild {
    type V = CustomBuildView;

    open spec fn view(&self) -> CustomBuildView {
        CustomBuildView {
            script: self.script@,
            timeout_seconds: self.timeout_seconds,
            working_directory: match self.working_directory {
                Some(dir) => Some(dir@),
                None => None,
            },
            shell: self.shell@,
        }
    }
}

/// The stages of a script build, in the order in which they are passed.
#[derive(Debug, Clone, Copy, PartialEq, Eq, Structural)]
pub enum ScriptStage {
    /// Asking whether the project directory exists.
    CheckProject,
    /// Asking whether the configured working directory exists.
    CheckWorkingDir,
    /// Asking for the output directory to be created.
    PrepareOutput,
    /// Running the script against its deadline.
    RunScript,
    /// Asking whether the script left anything in the output directory.
    InspectOutput,
}

impl View for ScriptStage {
    type V = ScriptStage;

    open spec fn view(&self) -> ScriptStage {
        *self
    }
}

impl ScriptStage {
    /// The place of a stage in the order of a build.
    pub open spec fn rank(self) -> nat {
        match self {
            ScriptStage::CheckProject => 0,
            ScriptStage::CheckWorkingDir => 1,
            ScriptStage::PrepareOutput => 2,
            ScriptStage::RunScript => 3,
            ScriptStage::InspectOutput => 4,
        }
    }
}

impl CustomBuildView {
    /// Why the configuration is refused, if it is: a blank script first, a zero
    /// timeout second.
    pub open spec fn validation(self) -> Option<BuildErrorView> {
        if is_blank(self.script) {
            Some(BuildErrorView::EmptyScript)
        } else if self.timeout_seconds == 0 {
            Some(BuildErrorView::InvalidTimeout)
        } else {
            None
        }
    }

    /// What the configuration warns about: each dangerous command that the
    /// script holds, then a timeout above an hour.
    pub open spec fn warnings(self) -> Seq<BuildWarningView> {
        let found = dangerous_found(
            self.script,
            spec_dangerous_patterns(),
            spec_dangerous_patterns().len(),
        );
        if self.timeout_seconds > LONG_TIMEOUT_SECONDS {
            found.push(
                BuildWarningView::LongTimeout {
                    seconds: self.timeout_seconds,
                    minutes: self.timeout_seconds / 60,
                },
            )
        } else {
            found
        }
    }

    /// Whether the directory the script runs in, read component by
    /// component, lies within the project: it starts with the project's path
    /// and never steps above it after that. Without a configured working
    /// directory the script runs in the project itself.
    pub open spec fn working_dir_within_project(self, ctx: BuildContextView) -> bool {
        match self.working_directory {
            Some(dir) => lies_within(self.working_dir(ctx), ctx.project_path),
            None => true,
        }
    }

    /// The directory the script runs in: the configured one adjoined to the
    /// project, or the project itself.
    pub open spec fn working_dir(self, ctx: BuildContextView) -> Seq<char> {
        match self.working_directory {
            Some(dir) => joined(ctx.project_path, dir),
            None => ctx.project_path,
        }
    }

    /// The command of the build: the shell, its arguments, and the script as
    /// the one argument after them, run in the working directory with the
    /// output and project directories in the environment.
    pub open spec fn command(self, ctx: BuildContextView) -> ProcessExecutionView {
        ProcessExecutionView {
            command: self.shell,
            args: spec_shell_args(ctx.platform).push(self.script),
            cwd: self.working_dir(ctx),
            env: seq![
                ("OUTPUT"@, ctx.output_path),
                ("PROJECT_PATH"@, ctx.project_path),
                ("TEMP_PATH"@, ctx.output_path),
            ],
            timeout_seconds: Some(self.timeout_seconds),
            stdio: StdioMode::Inherited,
            kill_on_cancel: true,
        }
    }

    /// Where a build starts: in its first stage, or failed at once where the
    /// configuration is refused.
    pub open spec fn start(self) -> StepView<ScriptStage> {
        match self.validation() {
            Some(error) => StepView::Failed { error },
            None => StepView::Continue { stage: ScriptStage::CheckProject },
        }
    }

    /// What each stage asks of the caller.
    pub open spec fn request(self, ctx: BuildContextView, stage: ScriptStage) -> EffectView {
        match stage {
            ScriptStage::CheckProject => EffectView::PathExists { path: ctx.project_path },
            ScriptStage::CheckWorkingDir => EffectView::PathExists { path: self.working_dir(ctx) },
            ScriptStage::PrepareOutput => EffectView::CreateDirAll { path: ctx.output_path },
            ScriptStage::RunScript => EffectView::RunWithDeadline { execution: self.command(ctx) },
            ScriptStage::InspectOutput => EffectView::HasEntries { path: ctx.output_path },
        }
    }

    /// Where a build stands after the caller's reply to the request of `stage`.
    /// A reply that does not answer that request changes nothing.
    pub open spec fn advance(
        self,
        ctx: BuildContextView,
        stage: ScriptStage,
        reply: ReplyView,
    ) -> StepView<ScriptStage> {
        match (stage, reply) {
            (ScriptStage::CheckProject, ReplyView::Exists { exists }) => if !exists {
                StepView::Failed {
                    error: BuildErrorView::MissingProjectPath { path: ctx.project_path },
                }
            } else if self.working_directory is None {
                StepView::Continue { stage: ScriptStage::PrepareOutput }
            } else if self.working_dir_within_project(ctx) {
                StepView::Continue { stage: ScriptStage::CheckWorkingDir }
            } else {
                StepView::Failed {
                    error: BuildErrorView::MissingWorkingDirectory { path: self.working_dir(ctx) },
                }
            },
            (ScriptStage::CheckWorkingDir, ReplyView::Exists { exists }) => if exists {
                StepView::Continue { stage: ScriptStage::PrepareOutput }
            } else {
                StepView::Failed {
                    error: BuildErrorView::MissingWorkingDirectory { path: self.working_dir(ctx) },
                }
            },
            (ScriptStage::PrepareOutput, ReplyView::Created { created }) => if created {
                StepView::Continue { stage: ScriptStage::RunScript }
            } else {
                StepView::Failed {
                    error: BuildErrorView::OutputDirectoryUnavailable { path: ctx.output_path },
                }
            },
            (ScriptStage::RunScript, ReplyView::Raced { race }) => match race_verdict(
                self.timeout_seconds,
                race,
            ) {
                Ok(_) => StepView::Continue { stage: ScriptStage::InspectOutput },
                Err(cause) => StepView::Failed { error: script_failure(cause, self.shell) },
            },
            (ScriptStage::InspectOutput, ReplyView::Entries { has_entries }) => match has_entries {
                Some(any) => StepView::Succeeded { report: BuildReport { output_empty: !any } },
                None => StepView::Failed {
                    error: BuildErrorView::OutputUnreadable { path: ctx.output_path },
                },
            },
            _ => StepView::Continue { stage },
        }
    }
}

impl CustomBuild {
    /// A script build of the given parts.
    pub fn new(
        script: String,
        timeout_seconds: u64,
        working_directory: Option<String>,
        shell: String,
    ) -> (build: CustomBuild)
        ensures
            build.script == script,
            build.timeout_seconds == timeout_seconds,
            build.working_directory == working_directory,
            build.shell == shell,
    {
        CustomBuild { script, timeout_seconds, working_directory, shell }
    }

    /// Accepts the configuration, or says why not. A script that is empty or
    /// white space only is refused as `EmptyScript`; otherwise a timeout of
    /// zero is refused as `InvalidTimeout`; everything else is accepted.
    pub fn validate(&self) -> (r: Result<(), BuildError>)
        ensures
            match r {
                Ok(_) => self@.validation() is None,
                Err(e) => self@.validation() == Some(e@),
            },
    {
        if blank(self.script.as_str()) {
            return Err(BuildError::EmptyScript);
        }
        if self.timeout_seconds == 0 {
            return Err(BuildError::InvalidTimeout);
        }
        Ok(())
    }

    /// What the configuration warns about. Warnings are advice: none of them
    /// changes what `validate` or the build decides.
    pub fn warnings(&self) -> (found: Vec<BuildWarning>)
        ensures
            found.deep_view() == self@.warnings(),
    {
        let patterns = dangerous_patterns();
        let mut found: Vec<BuildWarning> = Vec::new();
        let mut i: usize = 0;
        assert(found.deep_view() =~= dangerous_found(self.script@, patterns.deep_view(), 0));
        while i < patterns.len()
            invariant
                i <= patterns.len(),
                patterns.deep_view() == spec_dangerous_patterns(),
                found.deep_view() == dangerous_found(
                    self.script@,
                    spec_dangerous_patterns(),
                    i as nat,
                ),
            decreases patterns.len() - i,
        {
            let pattern: &str = patterns[i];
            assert(patterns.deep_view()[i as int] == pattern@);
            if contains_text(self.script.as_str(), pattern) {
                let ghost before = found.deep_view();
                let warning = BuildWarning::DangerousCommand { pattern: pattern.to_string() };
                found.push(warning);
                assert(found.deep_view() =~= before.push(warning@));
            }
            i += 1;
        }
        assert(patterns.len() == spec_dangerous_patterns().len());
        if self.timeout_seconds > LONG_TIMEOUT_SECONDS {
            let ghost before = found.deep_view();
            let warning = BuildWarning::LongTimeout {
                seconds: self.timeout_seconds,
                minutes: self.timeout_seconds / 60,
            };
            found.push(warning);
            assert(found.deep_view() =~= before.push(warning@));
        }
        found
    }

    /// The arguments that make the platform's shell run the text that follows
    /// them: `/C` on Windows, `-c` elsewhere.
    pub fn get_shell_args(&self, platform: Platform) -> (args: Vec<&'static str>)
        ensures
            args.deep_view() == spec_shell_args(platform),
    {
        let args = match platform {
            Platform::Windows => vec!["/C"],
            Platform::Unix => vec!["-c"],
        };
        assert(args.deep_view() =~= spec_shell_args(platform));
        args
    }

    /// The directory the script runs in.
    pub fn working_dir(&self, ctx: &BuildContext) -> (dir: String)
        ensures
            dir@ == self@.working_dir(ctx@),
    {
        match &self.working_directory {
            Some(dir) => path_join(ctx.project_path.as_str(), dir.as_str()),
            None => ctx.project_path.clone(),
        }
    }

    /// The command of the build.
    pub fn command(&self, ctx: &BuildContext) -> (execution: ProcessExecution)
        ensures
            execution@ == self@.command(ctx@),
    {
        let shell_args = self.get_shell_args(ctx.platform);
        let mut args: Vec<String> = Vec::new();
        let mut i: usize = 0;
        assert(args.deep_view() =~= shell_args.deep_view().take(0));
        while i < shell_args.len()
            invariant
                i <= shell_args.len(),
                args.deep_view() == shell_args.deep_view().take(i as int),
            decreases shell_args.len() - i,
        {
            let ghost before = args.deep_view();
            let arg: &str = shell_args[i];
            let owned = arg.to_string();
            args.push(owned);
            assert(args.deep_view() =~= before.push(owned@));
            assert(shell_args.deep_view()[i as int] == arg@);
            assert(before.push(owned@) =~= shell_args.deep_view().take(i + 1));
            i += 1;
        }
        assert(shell_args.deep_view().take(i as int) =~= shell_args.deep_view());
        let ghost before = args.deep_view();
        args.push(self.script.clone());
        assert(args.deep_view() =~= before.push(self.script@));
        let mut env: Vec<(String, String)> = Vec::new();
        env.push(("OUTPUT".to_string(), ctx.output_path.clone()));
        env.push(("PROJECT_PATH".to_string(), ctx.project_path.clone()));
        env.push(("TEMP_PATH".to_string(), ctx.output_path.clone()));
        assert(env.deep_view() =~= seq![
            ("OUTPUT"@, ctx.output_path@),
            ("PROJECT_PATH"@, ctx.project_path@),
            ("TEMP_PATH"@, ctx.output_path@),
        ]);
        ProcessExecution {
            command: self.shell.clone(),
            args,
            cwd: self.working_dir(ctx),
            env,
            timeout_seconds: Some(self.timeout_seconds),
            stdio: StdioMode::Inherited,
            kill_on_cancel: true,
        }
    }

    /// Starts a build: validates the configuration and names the first stage.
    pub fn start(&self) -> (step: Step<ScriptStage>)
        ensures
            step@ == self@.start(),
    {
        match self.validate() {
            Ok(_) => Step::Continue { stage: ScriptStage::CheckProject },
            Err(error) => Step::Failed { error },
        }
    }

    /// What the build asks of the caller in `stage`.
    pub fn request(&self, ctx: &BuildContext, stage: ScriptStage) -> (effect: Effect)
        ensures
            effect@ == self@.request(ctx@, stage),
    {
        match stage {
            ScriptStage::CheckProject => Effect::PathExists { path: ctx.project_path.clone() },
            ScriptStage::CheckWorkingDir => Effect::PathExists { path: self.working_dir(ctx) },
            ScriptStage::PrepareOutput => Effect::CreateDirAll { path: ctx.output_path.clone() },
            ScriptStage::RunScript => Effect::RunWithDeadline { execution: self.command(ctx) },
            ScriptStage::InspectOutput => Effect::HasEntries { path: ctx.output_path.clone() },
        }
    }

    /// Takes the caller's reply to the request of `stage` and says where the
    /// build stands now.
    pub fn advance(&self, ctx: &BuildContext, stage: ScriptStage, reply: Reply) -> (step: Step<
        ScriptStage,
    >)
        ensures
            step@ == self@.advance(ctx@, stage, reply@),
    {
        match (stage, reply) {
            (ScriptStage::CheckProject, Reply::Exists { exists }) => {
                if !exists {
                    Step::Failed {
                        error: BuildError::MissingProjectPath { path: ctx.project_path.clone() },
                    }
                } else if self.working_directory.is_none() {
                    Step::Continue { stage: ScriptStage::PrepareOutput }
                } else {
                    let dir = self.working_dir(ctx);
                    if path_lies_within(dir.as_str(), ctx.project_path.as_str()) {
                        Step::Continue { stage: ScriptStage::CheckWorkingDir }
                    } else {
                        Step::Failed { error: BuildError::MissingWorkingDirectory { path: dir } }
                    }
                }
            },
            (ScriptStage::CheckWorkingDir, Reply::Exists { exists }) => {
                if exists {
                    Step::Continue { stage: ScriptStage::PrepareOutput }
                } else {
                    Step::Failed {
                        error: BuildError::MissingWorkingDirectory { path: self.working_dir(ctx) },
                    }
                }
            },
            (ScriptStage::PrepareOutput, Reply::Created { created }) => {
                if created {
                    Step::Continue { stage: ScriptStage::RunScript }
                } else {
                    Step::Failed {
                        error: BuildError::OutputDirectoryUnavailable {
                            path: ctx.output_path.clone(),
                        },
                    }
                }
            },
            (ScriptStage::RunScript, Reply::Raced { race }) => {
                match check_race(self.timeout_seconds, race) {
                    Ok(_) => Step::Continue { stage: ScriptStage::InspectOutput },
                    Err(cause) => Step::Failed {
                        error: BuildError::from_execution(cause, self.shell.as_str()),
                    },
                }
            },
            (ScriptStage::InspectOutput, Reply::Entries { has_entries }) => {
                match has_entries {
                    Some(any) => Step::Succeeded { report: BuildReport { output_empty: !any } },
                    None => Step::Failed {
                        error: BuildError::OutputUnreadable { path: ctx.output_path.clone() },
                    },
                }
            },
            _ => Step::Continue { stage },
        }
    }
}

/// Validation accepts a configuration exactly when its script is not blank
/// and its timeout is positive. An empty script is blank, so it is refused;
/// so is a script of white space only; so is a timeout of zero, whatever the
/// script. Nothing else about the configuration matters.
pub proof fn lemma_validation_decides(build: CustomBuildView)
    ensures
        build.validation() is None <==> !is_blank(build.script) && build.timeout_seconds > 0,
        build.script.len() == 0 ==> build.validation() == Some(BuildErrorView::EmptyScript),
        is_blank(build.script) ==> build.validation() == Some(BuildErrorView::EmptyScript),
        build.timeout_seconds == 0 ==> build.validation() is Some,
        build.validation() is Some ==> build.validation()->0.kind() == ErrorKind::Configuration,
{
}

/// A refused configuration fails the build before anything is asked of the
/// caller: no stage is entered, so no process is started.
pub proof fn lemma_refused_before_any_effect(build: CustomBuildView)
    ensures
        build.validation() matches Some(error) ==> build.start() == (StepView::<
            ScriptStage,
        >::Failed { error }),
        build.validation() is None ==> build.start() == (StepView::Continue {
            stage: ScriptStage::CheckProject,
        }),
{
}

/// Only one stage starts a process, and the command it starts is the
/// build's own, with the configured deadline; for an accepted configuration
/// that command is well formed.
pub proof fn lemma_one_process_per_build(
    build: CustomBuildView,
    ctx: BuildContextView,
    stage: ScriptStage,
)
    ensures
        build.request(ctx, stage).starts_process() <==> stage == ScriptStage::RunScript,
        build.request(ctx, ScriptStage::RunScript).execution() == build.command(ctx),
        build.command(ctx).timeout_seconds == Some(build.timeout_seconds),
        build.validation() is None ==> build.command(ctx).well_formed(),
{
}

/// A build passes its stages in order, one at a time; the check of the
/// working directory is the one stage that is left out, where none is
/// configured. A reply that answers nothing leaves the stage as it is. With
/// a working directory configured, the output directory is asked for only
/// after that directory was found to lie within the project and to exist.
pub proof fn lemma_stages_in_order(
    build: CustomBuildView,
    ctx: BuildContextView,
    stage: ScriptStage,
    reply: ReplyView,
)
    ensures
        build.advance(ctx, stage, reply) matches StepView::Continue { stage: next } ==> {
            ||| next == stage
            ||| next.rank() == stage.rank() + 1
            ||| stage == ScriptStage::CheckProject && next == ScriptStage::PrepareOutput
                && build.working_directory is None
        },
        build.advance(ctx, stage, reply) == (StepView::Continue {
            stage: ScriptStage::PrepareOutput,
        }) && stage != ScriptStage::PrepareOutput && build.working_directory is Some ==> {
            &&& stage == ScriptStage::CheckWorkingDir
            &&& reply == (ReplyView::Exists { exists: true })
        },
        build.advance(ctx, stage, reply) == (StepView::Continue {
            stage: ScriptStage::CheckWorkingDir,
        }) && stage != ScriptStage::CheckWorkingDir ==> {
            &&& stage == ScriptStage::CheckProject
            &&& reply == (ReplyView::Exists { exists: true })
            &&& build.working_dir_within_project(ctx)
        },
{
}

/// Failures of configuration and validation leave nothing behind: a failure
/// of one of these classes arises only in a stage ahead of the one that
/// creates the output directory, and all that those stages ask is whether a
/// path exists. So nothing was created and no process was started.
pub proof fn lemma_fail_fast(
    build: CustomBuildView,
    ctx: BuildContextView,
    stage: ScriptStage,
    reply: ReplyView,
)
    ensures
        build.advance(ctx, stage, reply) matches StepView::Failed { error } && error.fails_fast()
            ==> stage.rank() < ScriptStage::PrepareOutput.rank(),
        stage.rank() < ScriptStage::PrepareOutput.rank() ==> build.request(ctx, stage)
            is PathExists,
        build.advance(ctx, stage, reply) matches StepView::Failed { error } ==> (error
            is MissingWorkingDirectory ==> error.fails_fast()),
{
}

/// A working directory that does not exist, or does not lie within the
/// project, fails the build with its path, before the output directory is
/// asked for.
pub proof fn lemma_working_directory_is_validated(
    build: CustomBuildView,
    ctx: BuildContextView,
)
    requires
        build.working_directory is Some,
    ensures
        build.advance(ctx, ScriptStage::CheckWorkingDir, ReplyView::Exists { exists: false })
            == (StepView::<ScriptStage>::Failed {
            error: BuildErrorView::MissingWorkingDirectory { path: build.working_dir(ctx) },
        }),
        !build.working_dir_within_project(ctx) ==> build.advance(
            ctx,
            ScriptStage::CheckProject,
            ReplyView::Exists { exists: true },
        ) == (StepView::<ScriptStage>::Failed {
            error: BuildErrorView::MissingWorkingDirectory { path: build.working_dir(ctx) },
        }),
        ScriptStage::CheckWorkingDir.rank() < ScriptStage::PrepareOutput.rank(),
        ScriptStage::PrepareOutput.rank() < ScriptStage::RunScript.rank(),
{
}

/// The script's end decides as follows: exit code zero goes on to the
/// inspection of the output; a passed deadline fails with the configured
/// number of seconds; any other exit fails with the code, if there was one.
pub proof fn lemma_script_end_decides(
    build: CustomBuildView,
    ctx: BuildContextView,
    race: RaceOutcome,
    code: Option<i32>,
)
    ensures
        build.advance(ctx, ScriptStage::RunScript, ReplyView::Raced { race }) == (
        StepView::Continue { stage: ScriptStage::InspectOutput }) <==> race
            == RaceOutcome::Completed(ExitOutcome::Exited(Some(0i32))),
        build.advance(ctx, ScriptStage::RunScript, ReplyView::Raced { race: RaceOutcome::TimedOut })
            == (StepView::<ScriptStage>::Failed {
            error: BuildErrorView::Timeout { seconds: build.timeout_seconds },
        }),
        code != Some(0i32) ==> build.advance(
            ctx,
            ScriptStage::RunScript,
            ReplyView::Raced { race: RaceOutcome::Completed(ExitOutcome::Exited(code)) },
        ) == (StepView::<ScriptStage>::Failed { error: BuildErrorView::NonZeroExit { code } }),
{
}

/// A build succeeds only in its last stage, and an empty output directory
/// does not make it fail: it is reported, nothing more.
pub proof fn lemma_empty_output_is_no_failure(
    build: CustomBuildView,
    ctx: BuildContextView,
    stage: ScriptStage,
    reply: ReplyView,
)
    ensures
        build.advance(ctx, stage, reply) is Succeeded ==> stage == ScriptStage::InspectOutput,
        build.advance(ctx, ScriptStage::InspectOutput, ReplyView::Entries { has_entries: Some(false) })
            == (StepView::<ScriptStage>::Succeeded { report: BuildReport { output_empty: true } }),
{
}

/// Warnings change no outcome: what validation says depends on the script
/// being blank and on the timeout being zero, not on what the warnings are.
pub proof fn lemma_warnings_change_nothing(a: CustomBuildView, b: CustomBuildView)
    requires
        is_blank(a.script) == is_blank(b.script),
        (a.timeout_seconds == 0) == (b.timeout_seconds == 0),
    ensures
        a.validation() == b.validation(),
{
}

/// Only the answer to what was asked moves a build: a reply of another kind
/// than the request of the stage leaves the build in that stage.
pub proof fn lemma_only_answers_count(
    build: CustomBuildView,
    ctx: BuildContextView,
    stage: ScriptStage,
    reply: ReplyView,
)
    requires
        !build.request(ctx, stage).answered_by(reply),
    ensures
        build.advance(ctx, stage, reply) == (StepView::Continue { stage }),
{
}

} // verus!

use nocti::custom::dangerous_patterns;
use nocti::custom::default_shell;
use nocti::custom::default_timeout;
use nocti::custom::CustomBuild;
use nocti::custom::ScriptStage;
use nocti::effect::BuildContext;
use nocti::effect::BuildReport;
use nocti::effect::Effect;
use nocti::effect::Platform;
use nocti::effect::Reply;
use nocti::effect::Step;
use nocti::error::BuildError;
use nocti::error::BuildWarning;
use nocti::error::ErrorKind;
use nocti::process::ExitOutcome;
use nocti::process::ProcessExecution;
use nocti::process::RaceOutcome;
use nocti::process::StdioMode;

fn unix_context() -> BuildContext {
    BuildContext {
        platform: Platform::Unix,
        project_path: "/work/project".to_string(),
        output_path: "/tmp/out".to_string(),
    }
}

fn script(text: &str, timeout: u64) -> CustomBuild {
    CustomBuild::new(text.to_string(), timeout, None, "sh".to_string())
}

#[test]
fn test_validate_empty_script() {
    let build = CustomBuild {
        script: "   ".to_string(),
        timeout_seconds: 300,
        working_directory: None,
        shell: default_shell(Platform::Unix),
    };

    assert!(build.validate().is_err());
}

#[test]
fn test_validate_zero_timeout() {
    let build = CustomBuild {
        script: "echo test".to_string(),
        timeout_seconds: 0,
        working_directory: None,
        shell: default_shell(Platform::Unix),
    };

    assert!(build.validate().is_err());
}

#[test]
fn test_validate_valid_config() {
    let build = CustomBuild {
        script: "echo 'Building...'".to_string(),
        timeout_seconds: 300,
        working_directory: None,
        shell: default_shell(Platform::Unix),
    };

    assert!(build.validate().is_ok());
}

#[test]
fn test_shell_args_unix() {
    let build = CustomBuild {
        script: "test".to_string(),
        timeout_seconds: 300,
        working_directory: None,
        shell: "sh".to_string(),
    };

    let platform = Platform::from_os("linux");
    if platform != Platform::from_os("windows") {
        assert_eq!(build.get_shell_args(platform), vec!["-c"]);
    }
}

#[test]
fn shell_args_windows() {
    let build = script("test", 300);
    assert_eq!(build.get_shell_args(Platform::from_os("windows")), vec!["/C"]);
    assert_eq!(Platform::from_os("windows"), Platform::Windows);
    assert_eq!(Platform::from_os("macos"), Platform::Unix);
    assert_eq!(Platform::from_os(""), Platform::Unix);
}

#[test]
fn defaults() {
    assert_eq!(default_timeout(), 300);
    assert_eq!(default_shell(Platform::Unix), "sh");
    assert_eq!(default_shell(Platform::Windows), "cmd");
}

#[test]
fn validation_names_the_reason() {
    assert_eq!(script("", 300).validate(), Err(BuildError::EmptyScript));
    assert_eq!(script(" \t\n", 300).validate(), Err(BuildError::EmptyScript));
    assert_eq!(script("\u{a0}\u{2003}", 300).validate(), Err(BuildError::EmptyScript));
    assert_eq!(script("make", 0).validate(), Err(BuildError::InvalidTimeout));
    // a blank script is reported before a zero timeout
    assert_eq!(script("  ", 0).validate(), Err(BuildError::EmptyScript));
    assert_eq!(script(" x ", 1).validate(), Ok(()));
    assert_eq!(script("make", u64::MAX).validate(), Ok(()));
    assert_eq!(BuildError::EmptyScript.kind(), ErrorKind::Configuration);
    assert_eq!(BuildError::InvalidTimeout.kind(), ErrorKind::Configuration);
}

#[test]
fn validation_ignores_warnings() {
    let build = script("sudo rm -rf / && format c:", 7200);
    assert_eq!(build.validate(), Ok(()));
    assert_eq!(build.warnings().len(), 4);
}

#[test]
fn warnings_list_dangerous_commands_in_order() {
    assert_eq!(dangerous_patterns(), vec!["rm -rf /", "format", "del /f /s /q", "sudo"]);
    let build = script("sudo make && rm -rf /tmp/x", 300);
    assert_eq!(
        build.warnings(),
        vec![
            BuildWarning::DangerousCommand { pattern: "rm -rf /".to_string() },
            BuildWarning::DangerousCommand { pattern: "sudo".to_string() },
        ]
    );
    assert_eq!(script("cargo fmt", 300).warnings(), vec![]);
    assert_eq!(
        script("reformat", 300).warnings(),
        vec![BuildWarning::DangerousCommand { pattern: "format".to_string() }]
    );
    assert_eq!(
        script("del /f /s /q x", 300).warnings(),
        vec![BuildWarning::DangerousCommand { pattern: "del /f /s /q".to_string() }]
    );
}

#[test]
fn warnings_flag_long_timeouts() {
    assert_eq!(script("make", 3600).warnings(), vec![]);
    assert_eq!(
        script("make", 3601).warnings(),
        vec![BuildWarning::LongTimeout { seconds: 3601, minutes: 60 }]
    );
    assert_eq!(
        script("make", 7200).warnings(),
        vec![BuildWarning::LongTimeout { seconds: 7200, minutes: 120 }]
    );
    assert_eq!(
        script("sudo make", 7259).warnings(),
        vec![
            BuildWarning::DangerousCommand { pattern: "sudo".to_string() },
            BuildWarning::LongTimeout { seconds: 7259, minutes: 120 },
        ]
    );
}

#[test]
fn command_runs_the_script_through_the_shell() {
    let build = script("echo x > $OUTPUT/f.txt", 10);
    let ctx = unix_context();
    assert_eq!(
        build.command(&ctx),
        ProcessExecution {
            command: "sh".to_string(),
            args: vec!["-c".to_string(), "echo x > $OUTPUT/f.txt".to_string()],
            cwd: "/work/project".to_string(),
            env: vec![
                ("OUTPUT".to_string(), "/tmp/out".to_string()),
                ("PROJECT_PATH".to_string(), "/work/project".to_string()),
                ("TEMP_PATH".to_string(), "/tmp/out".to_string()),
            ],
            timeout_seconds: Some(10),
            stdio: StdioMode::Inherited,
            kill_on_cancel: true,
        }
    );
}

#[test]
fn command_on_windows_uses_cmd_arguments() {
    let build = CustomBuild::new("build.bat".to_string(), 5, None, default_shell(Platform::Windows));
    let ctx = BuildContext {
        platform: Platform::Windows,
        project_path: "proj".to_string(),
        output_path: "out".to_string(),
    };
    let command = build.command(&ctx);
    assert_eq!(command.command, "cmd");
    assert_eq!(command.args, vec!["/C".to_string(), "build.bat".to_string()]);
}

#[test]
fn working_directory_is_joined_to_the_project() {
    let ctx = unix_context();
    assert_eq!(script("make", 1).working_dir(&ctx), "/work/project");
    let build =
        CustomBuild::new("make".to_string(), 1, Some("sub/dir".to_string()), "sh".to_string());
    assert_eq!(build.working_dir(&ctx), "/work/project/sub/dir");
    assert_eq!(build.command(&ctx).cwd, "/work/project/sub/dir");
    assert_eq!(
        build.command(&ctx).env[1],
        ("PROJECT_PATH".to_string(), "/work/project".to_string())
    );
}

#[test]
fn start_refuses_before_any_effect() {
    assert_eq!(script("  ", 10).start(), Step::Failed { error: BuildError::EmptyScript });
    assert_eq!(script("make", 0).start(), Step::Failed { error: BuildError::InvalidTimeout });
    assert_eq!(script("make", 10).start(), Step::Continue { stage: ScriptStage::CheckProject });
}

#[test]
fn script_build_runs_through_its_stages() {
    let build = script("echo x > $OUTPUT/f.txt", 10);
    let ctx = unix_context();

    let stage = ScriptStage::CheckProject;
    assert_eq!(build.request(&ctx, stage), Effect::PathExists { path: "/work/project".to_string() });
    let step = build.advance(&ctx, stage, Reply::Exists { exists: true });
    assert_eq!(step, Step::Continue { stage: ScriptStage::PrepareOutput });

    let stage = ScriptStage::PrepareOutput;
    assert_eq!(build.request(&ctx, stage), Effect::CreateDirAll { path: "/tmp/out".to_string() });
    let step = build.advance(&ctx, stage, Reply::Created { created: true });
    assert_eq!(step, Step::Continue { stage: ScriptStage::RunScript });

    let stage = ScriptStage::RunScript;
    assert_eq!(
        build.request(&ctx, stage),
        Effect::RunWithDeadline { execution: build.command(&ctx) }
    );
    let done = RaceOutcome::Completed(ExitOutcome::Exited(Some(0)));
    let step = build.advance(&ctx, stage, Reply::Raced { race: done });
    assert_eq!(step, Step::Continue { stage: ScriptStage::InspectOutput });

    let stage = ScriptStage::InspectOutput;
    assert_eq!(build.request(&ctx, stage), Effect::HasEntries { path: "/tmp/out".to_string() });
    let step = build.advance(&ctx, stage, Reply::Entries { has_entries: Some(true) });
    assert_eq!(step, Step::Succeeded { report: BuildReport { output_empty: false } });
}

#[test]
fn script_build_checks_a_configured_working_directory() {
    let build = CustomBuild::new("make".to_string(), 10, Some("sub".to_string()), "sh".to_string());
    let ctx = unix_context();
    // the working directory is checked before anything is created
    let step = build.advance(&ctx, ScriptStage::CheckProject, Reply::Exists { exists: true });
    assert_eq!(step, Step::Continue { stage: ScriptStage::CheckWorkingDir });
    assert_eq!(
        build.request(&ctx, ScriptStage::CheckWorkingDir),
        Effect::PathExists { path: "/work/project/sub".to_string() }
    );
    assert_eq!(
        build.advance(&ctx, ScriptStage::CheckWorkingDir, Reply::Exists { exists: false }),
        Step::Failed {
            error: BuildError::MissingWorkingDirectory { path: "/work/project/sub".to_string() }
        }
    );
    assert_eq!(
        build.advance(&ctx, ScriptStage::CheckWorkingDir, Reply::Exists { exists: true }),
        Step::Continue { stage: ScriptStage::PrepareOutput }
    );
    assert_eq!(
        build.request(&ctx, ScriptStage::PrepareOutput),
        Effect::CreateDirAll { path: "/tmp/out".to_string() }
    );
    assert_eq!(
        build.advance(&ctx, ScriptStage::PrepareOutput, Reply::Created { created: true }),
        Step::Continue { stage: ScriptStage::RunScript }
    );
    assert_eq!(build.command(&ctx).cwd, "/work/project/sub");
}

#[test]
fn script_build_failures() {
    let build = script("sleep 5", 1);
    let ctx = unix_context();
    assert_eq!(
        build.advance(&ctx, ScriptStage::CheckProject, Reply::Exists { exists: false }),
        Step::Failed { error: BuildError::MissingProjectPath { path: "/work/project".to_string() } }
    );
    assert_eq!(
        build.advance(&ctx, ScriptStage::PrepareOutput, Reply::Created { created: false }),
        Step::Failed {
            error: BuildError::OutputDirectoryUnavailable { path: "/tmp/out".to_string() }
        }
    );
    assert_eq!(
        build.advance(&ctx, ScriptStage::RunScript, Reply::Raced { race: RaceOutcome::TimedOut }),
        Step::Failed { error: BuildError::Timeout { seconds: 1 } }
    );
    let run = |exit: ExitOutcome| {
        build.advance(
            &ctx,
            ScriptStage::RunScript,
            Reply::Raced { race: RaceOutcome::Completed(exit) },
        )
    };
    assert_eq!(
        run(ExitOutcome::Exited(Some(2))),
        Step::Failed { error: BuildError::NonZeroExit { code: Some(2) } }
    );
    assert_eq!(
        run(ExitOutcome::Exited(Some(-1))),
        Step::Failed { error: BuildError::NonZeroExit { code: Some(-1) } }
    );
    assert_eq!(
        run(ExitOutcome::Exited(None)),
        Step::Failed { error: BuildError::NonZeroExit { code: None } }
    );
    assert_eq!(
        run(ExitOutcome::SpawnFailed),
        Step::Failed { error: BuildError::SpawnFailure { program: "sh".to_string() } }
    );
    assert_eq!(run(ExitOutcome::WaitFailed), Step::Failed { error: BuildError::WaitFailure });
    assert_eq!(
        build.advance(&ctx, ScriptStage::InspectOutput, Reply::Entries { has_entries: None }),
        Step::Failed { error: BuildError::OutputUnreadable { path: "/tmp/out".to_string() } }
    );
}

#[test]
fn empty_output_is_reported_and_no_failure() {
    let build = script("true", 10);
    let ctx = unix_context();
    assert_eq!(BuildReport { output_empty: true }.warnings(), vec![BuildWarning::EmptyOutput]);
    assert_eq!(BuildReport { output_empty: false }.warnings(), vec![]);
    assert_eq!(
        build.advance(&ctx, ScriptStage::InspectOutput, Reply::Entries { has_entries: Some(false) }),
        Step::Succeeded { report: BuildReport { output_empty: true } }
    );
}

#[test]
fn a_reply_that_answers_nothing_changes_nothing() {
    let build = script("true", 10);
    let ctx = unix_context();
    assert_eq!(
        build.advance(&ctx, ScriptStage::CheckProject, Reply::Created { created: true }),
        Step::Continue { stage: ScriptStage::CheckProject }
    );
    assert_eq!(
        build.advance(&ctx, ScriptStage::RunScript, Reply::Ran { exit: ExitOutcome::Exited(Some(0)) }),
        Step::Continue { stage: ScriptStage::RunScript }
    );
    assert_eq!(
        build.advance(&ctx, ScriptStage::InspectOutput, Reply::Exists { exists: true }),
        Step::Continue { stage: ScriptStage::InspectOutput }
    );
}

#[test]
fn error_kinds() {
    let path = || "p".to_string();
    assert_eq!(BuildError::MissingProjectPath { path: path() }.kind(), ErrorKind::Validation);
    assert_eq!(BuildError::MissingWorkingDirectory { path: path() }.kind(), ErrorKind::Validation);
    assert_eq!(BuildError::MissingManifest { path: path() }.kind(), ErrorKind::Validation);
    assert_eq!(BuildError::ToolchainUnavailable.kind(), ErrorKind::Validation);
    assert_eq!(BuildError::PackageNotFound { name: path() }.kind(), ErrorKind::Validation);
    assert_eq!(BuildError::NoPackagesFound.kind(), ErrorKind::Validation);
    assert_eq!(BuildError::SpawnFailure { program: path() }.kind(), ErrorKind::Execution);
    assert_eq!(BuildError::Timeout { seconds: 3 }.kind(), ErrorKind::Execution);
    assert_eq!(BuildError::NonZeroExit { code: Some(1) }.kind(), ErrorKind::Execution);
    assert_eq!(BuildError::BuildToolFailed { code: None }.kind(), ErrorKind::Execution);
    assert_eq!(BuildError::BinaryNotProduced { path: path() }.kind(), ErrorKind::Artifact);
    assert_eq!(BuildError::CopyFailed { from: path(), to: path() }.kind(), ErrorKind::Artifact);
}

#[test]
fn a_working_directory_outside_the_project_is_refused() {
    let ctx = unix_context();
    let with_dir = |dir: &str| {
        CustomBuild::new("make".to_string(), 10, Some(dir.to_string()), "sh".to_string())
    };
    let checked = |build: &CustomBuild| {
        build.advance(&ctx, ScriptStage::CheckProject, Reply::Exists { exists: true })
    };
    assert_eq!(
        checked(&with_dir("../other")),
        Step::Failed {
            error: BuildError::MissingWorkingDirectory {
                path: "/work/project/../other".to_string()
            }
        }
    );
    assert_eq!(
        checked(&with_dir("/etc")),
        Step::Failed { error: BuildError::MissingWorkingDirectory { path: "/etc".to_string() } }
    );
    assert_eq!(
        checked(&with_dir("/work/projects")),
        Step::Failed {
            error: BuildError::MissingWorkingDirectory { path: "/work/projects".to_string() }
        }
    );
    for inside in ["a/../b", "sub", "./sub/", "/work/project/sub", "/work/project"] {
        assert_eq!(
            checked(&with_dir(inside)),
            Step::Continue { stage: ScriptStage::CheckWorkingDir },
            "{:?} lies within the project",
            inside
        );
    }
    // validation does not look at the working directory
    assert_eq!(with_dir("../other").validate(), Ok(()));
}

#[test]
fn validation_failures_come_before_anything_is_created() {
    let ctx = unix_context();
    let build = CustomBuild::new("make".to_string(), 10, Some("sub".to_string()), "sh".to_string());
    // every request up to the check of the working directory only asks whether a path exists
    for stage in [ScriptStage::CheckProject, ScriptStage::CheckWorkingDir] {
        assert!(matches!(build.request(&ctx, stage), Effect::PathExists { .. }));
    }
    let missing = build.advance(&ctx, ScriptStage::CheckWorkingDir, Reply::Exists { exists: false });
    let Step::Failed { error } = missing else { panic!("a missing working directory fails") };
    assert_eq!(error.kind(), ErrorKind::Validation);
}

use nocti::backend::Build;
use nocti::backend::BuildRun;
use nocti::config::config_file;
use nocti::config::config_path;
use nocti::config::control_plane_url_variable;
use nocti::config::default_control_plane_url;
use nocti::config::default_registry_url;
use nocti::config::endpoint;
use nocti::config::locate;
use nocti::config::registry_url_variable;
use nocti::config::Config;
use nocti::custom::CustomBuild;
use nocti::custom::ScriptStage;
use nocti::effect::BuildContext;
use nocti::effect::Effect;
use nocti::effect::Platform;
use nocti::effect::Reply;
use nocti::effect::Step;
use nocti::error::BuildError;
use nocti::pipeline::SetupError;
use nocti::paths::parts_stay_within;
use nocti::paths::path_lies_within;
use nocti::paths::path_stays_within;
use nocti::paths::PathPart;
use nocti::process::check_exit;
use nocti::process::check_race;
use nocti::process::ExecutionError;
use nocti::process::ExitOutcome;
use nocti::process::RaceOutcome;
use nocti::rust::BuildProfile;
use nocti::rust::CompiledStage;
use nocti::rust::RustBuild;
use nocti::rust::RustBuildConfig;
use nocti::stream::next_outbound;
use nocti::stream::Outbound;
use nocti::stream::PipeRead;
use nocti::stream::CHUNK_SIZE;
use nocti::stream::PIPE_CAPACITY;
use nocti::text::blank;
use nocti::text::char_is_whitespace;
use nocti::text::chars_of;
use nocti::text::contains_text;
use nocti::text::same_text;
use std::collections::HashMap;

use nocti::trigger::parse_metadata;
use nocti::trigger::put_pair;
use nocti::trigger::split_entry;
use nocti::trigger::TriggerError;

#[test]
fn exit_verdicts() {
    assert_eq!(check_exit(ExitOutcome::Exited(Some(0))), Ok(()));
    assert_eq!(
        check_exit(ExitOutcome::Exited(Some(1))),
        Err(ExecutionError::NonZeroExit(Some(1)))
    );
    assert_eq!(
        check_exit(ExitOutcome::Exited(Some(-7))),
        Err(ExecutionError::NonZeroExit(Some(-7)))
    );
    assert_eq!(check_exit(ExitOutcome::Exited(None)), Err(ExecutionError::NonZeroExit(None)));
    assert_eq!(check_exit(ExitOutcome::SpawnFailed), Err(ExecutionError::SpawnFailure));
    assert_eq!(check_exit(ExitOutcome::WaitFailed), Err(ExecutionError::WaitFailure));
}

#[test]
fn race_verdicts() {
    assert_eq!(check_race(1, RaceOutcome::TimedOut), Err(ExecutionError::Timeout(1)));
    assert_eq!(check_race(300, RaceOutcome::TimedOut), Err(ExecutionError::Timeout(300)));
    assert_eq!(check_race(1, RaceOutcome::Completed(ExitOutcome::Exited(Some(0)))), Ok(()));
    assert_eq!(
        check_race(1, RaceOutcome::Completed(ExitOutcome::Exited(Some(9)))),
        Err(ExecutionError::NonZeroExit(Some(9)))
    );
    assert_eq!(
        BuildError::from_execution(ExecutionError::Timeout(4), "sh"),
        BuildError::Timeout { seconds: 4 }
    );
    assert_eq!(
        BuildError::from_execution(ExecutionError::NonZeroExit(None), "sh"),
        BuildError::NonZeroExit { code: None }
    );
    assert_eq!(
        BuildError::from_execution(ExecutionError::SpawnFailure, "bash"),
        BuildError::SpawnFailure { program: "bash".to_string() }
    );
    assert_eq!(
        BuildError::from_execution(ExecutionError::WaitFailure, "sh"),
        BuildError::WaitFailure
    );
}

#[test]
fn blank_texts() {
    assert!(blank(""));
    assert!(blank(" "));
    assert!(blank("\t\r\n \u{3000}"));
    assert!(!blank("a"));
    assert!(!blank("  a  "));
    assert!(!blank("\u{200b}"));
    for text in ["", " ", " x", "\n\n", "é", "\u{85}"] {
        assert_eq!(blank(text), text.trim().is_empty());
    }
}

#[test]
fn texts_compare_and_contain() {
    assert_eq!(chars_of("héllo"), vec!['h', 'é', 'l', 'l', 'o']);
    assert_eq!(chars_of(""), Vec::<char>::new());
    assert!(same_text("abc", "abc"));
    assert!(same_text("", ""));
    assert!(!same_text("abc", "abd"));
    assert!(!same_text("abc", "ab"));
    assert!(contains_text("sudo make", "sudo"));
    assert!(contains_text("make; sudo", "sudo"));
    assert!(contains_text("xsudox", "sudo"));
    assert!(contains_text("abc", ""));
    assert!(contains_text("", ""));
    assert!(!contains_text("", "a"));
    assert!(!contains_text("sud", "sudo"));
    assert!(!contains_text("s-u-d-o", "sudo"));
    assert!(contains_text("aab", "ab"));
    assert!(contains_text("ünïcödé", "cöd"));
    for (hay, needle) in [("rm -rf /", "rm -rf /"), ("rm -rf", "rm -rf /"), ("aaa", "aa")] {
        assert_eq!(contains_text(hay, needle), hay.contains(needle));
    }
}

#[test]
fn one_read_becomes_one_chunk() {
    assert_eq!(PIPE_CAPACITY, 8 * 1024);
    assert_eq!(CHUNK_SIZE, 8192);
    let buffer = [1u8, 2, 3, 4, 5];
    assert_eq!(
        next_outbound(&buffer, PipeRead::Bytes { count: 3 }),
        Outbound::Chunk { data: vec![1, 2, 3] }
    );
    assert_eq!(
        next_outbound(&buffer, PipeRead::Bytes { count: 5 }),
        Outbound::Chunk { data: vec![1, 2, 3, 4, 5] }
    );
    assert_eq!(next_outbound(&buffer, PipeRead::Bytes { count: 0 }), Outbound::End);
    assert_eq!(next_outbound(&buffer, PipeRead::Failed), Outbound::End);
    assert_eq!(next_outbound(&[], PipeRead::Bytes { count: 0 }), Outbound::End);
}

#[test]
fn chunks_reassemble_to_the_stream() {
    let stream: Vec<u8> = (0..20000u32).map(|i| (i % 251) as u8).collect();
    let mut sent: Vec<Vec<u8>> = Vec::new();
    let mut offset = 0;
    let mut buffer = vec![0u8; CHUNK_SIZE];
    loop {
        let count = (stream.len() - offset).min(CHUNK_SIZE);
        buffer[..count].copy_from_slice(&stream[offset..offset + count]);
        offset += count;
        match next_outbound(&buffer, PipeRead::Bytes { count }) {
            Outbound::Chunk { data } => sent.push(data),
            Outbound::End => break,
        }
    }
    assert_eq!(sent.len(), 3);
    assert_eq!(sent[0].len(), 8192);
    assert_eq!(sent[2].len(), 20000 - 2 * 8192);
    assert_eq!(sent.concat(), stream);
}

#[test]
fn an_empty_stream_sends_no_chunk() {
    let buffer = vec![0u8; CHUNK_SIZE];
    assert_eq!(next_outbound(&buffer, PipeRead::Bytes { count: 0 }), Outbound::End);
}

#[test]
fn endpoints_fall_back() {
    let some = |s: &str| Some(s.to_string());
    assert_eq!(endpoint(some("http://c"), some("http://e"), "http://f"), "http://c");
    assert_eq!(endpoint(None, some("http://e"), "http://f"), "http://e");
    assert_eq!(endpoint(None, None, "http://f"), "http://f");
    assert_eq!(endpoint(some("http://c"), None, "http://f"), "http://c");
    assert_eq!(default_registry_url(None), "http://localhost:50001");
    assert_eq!(default_registry_url(some("http://r:1")), "http://r:1");
    assert_eq!(default_control_plane_url(None), "http://localhost:50002");
    assert_eq!(default_control_plane_url(some("http://c:2")), "http://c:2");
    assert_eq!(config_file(), "Nocti.toml");
    assert_eq!(registry_url_variable(), "NOCTI_REGISTRY_URL");
    assert_eq!(control_plane_url_variable(), "NOCTI_CONTROL_PLANE_URL");
}

#[test]
fn configuration_is_resolved() {
    let build = Build::Custom {
        build: CustomBuild::new("make".to_string(), 300, None, "sh".to_string()),
    };
    let config = Config::resolve(
        "demo".to_string(),
        build.clone(),
        None,
        Some("http://cp".to_string()),
        Some("http://env-registry".to_string()),
        Some("http://env-cp".to_string()),
    );
    assert_eq!(
        config,
        Config {
            project_name: "demo".to_string(),
            build,
            registry_url: "http://env-registry".to_string(),
            control_plane_url: "http://cp".to_string(),
        }
    );
}

#[test]
fn surroundings_are_judged_in_order() {
    let no_project = Some(SetupError::InvalidProjectPath { path: "/work/project".to_string() });
    assert_eq!(locate("/work/project", false, false), no_project);
    assert_eq!(locate("/work/project", false, true), no_project);
    assert_eq!(
        locate("/work/project", true, false),
        Some(SetupError::MissingConfigFile { path: "/work/project/Nocti.toml".to_string() })
    );
    assert_eq!(locate("/work/project", true, true), None);
    assert_eq!(config_path("/work/project"), "/work/project/Nocti.toml");
    assert_eq!(config_path("."), "./Nocti.toml");
}

#[test]
fn metadata_entries_split_at_the_first_separator() {
    let pair = |k: &str, v: &str| Some((k.to_string(), v.to_string()));
    assert_eq!(split_entry("key=value"), pair("key", "value"));
    assert_eq!(split_entry("a=b=c"), pair("a", "b=c"));
    assert_eq!(split_entry("=v"), pair("", "v"));
    assert_eq!(split_entry("k="), pair("k", ""));
    assert_eq!(split_entry("="), pair("", ""));
    assert_eq!(split_entry("novalue"), None);
    assert_eq!(split_entry(""), None);
    assert_eq!(split_entry("clé=värde"), pair("clé", "värde"));
}

#[test]
fn metadata_keeps_each_key_once_with_its_last_value() {
    let pair = |k: &str, v: &str| (k.to_string(), v.to_string());
    let entries = vec!["a=1".to_string(), "b=2".to_string(), "a=3".to_string()];
    assert_eq!(parse_metadata(&entries), Ok(vec![pair("a", "3"), pair("b", "2")]));
    let entries: Vec<String> =
        ["x=1", "y=", "x=2", "z=9", "y=y", "x=3"].iter().map(|e| e.to_string()).collect();
    assert_eq!(
        parse_metadata(&entries),
        Ok(vec![pair("x", "3"), pair("y", "y"), pair("z", "9")])
    );
    // the same map as entering the pairs one after the other
    let parsed: HashMap<String, String> = parse_metadata(&entries).unwrap().into_iter().collect();
    let mut entered = HashMap::new();
    for entry in &entries {
        let (key, value) = entry.split_once('=').unwrap();
        entered.insert(key.to_string(), value.to_string());
    }
    assert_eq!(parsed, entered);
    assert_eq!(parse_metadata(&vec![]), Ok(vec![]));
    let entries = vec!["a=1".to_string(), "bad".to_string(), "worse".to_string()];
    assert_eq!(
        parse_metadata(&entries),
        Err(TriggerError::InvalidMetadata { entry: "bad".to_string() })
    );
}

#[test]
fn pairs_are_entered_in_place() {
    let pair = |k: &str, v: &str| (k.to_string(), v.to_string());
    let mut list = vec![pair("a", "1"), pair("b", "2")];
    put_pair(&mut list, "c".to_string(), "3".to_string());
    assert_eq!(list, vec![pair("a", "1"), pair("b", "2"), pair("c", "3")]);
    put_pair(&mut list, "a".to_string(), "4".to_string());
    assert_eq!(list, vec![pair("a", "4"), pair("b", "2"), pair("c", "3")]);
}

#[test]
fn the_selected_backend_runs() {
    let ctx = BuildContext {
        platform: Platform::Unix,
        project_path: "/p".to_string(),
        output_path: "/o".to_string(),
    };
    let script = CustomBuild::new("make".to_string(), 5, None, "sh".to_string());
    let Step::Continue { stage: run } = (Build::Custom { build: script.clone() }).start() else {
        panic!("a valid script build starts")
    };
    assert_eq!(run, BuildRun::Script { build: script.clone(), stage: ScriptStage::CheckProject });
    assert_eq!(run.request(&ctx), Effect::PathExists { path: "/p".to_string() });
    assert_eq!(
        run.advance(&ctx, Reply::Exists { exists: true }),
        Step::Continue {
            stage: BuildRun::Script { build: script, stage: ScriptStage::PrepareOutput }
        }
    );

    let refused = CustomBuild::new(" ".to_string(), 5, None, "sh".to_string());
    assert_eq!(
        (Build::Custom { build: refused }).start(),
        Step::Failed { error: BuildError::EmptyScript }
    );

    let config = RustBuildConfig::new(None, "Debug".to_string(), None, Some("srv".to_string()));
    let Step::Continue { stage: run } = (Build::Rust { config }).start() else {
        panic!("a compiled build starts")
    };
    let build = RustBuild {
        target: None,
        profile: BuildProfile::Debug,
        package_name: None,
        binary_name: Some("srv".to_string()),
    };
    assert_eq!(
        run,
        BuildRun::Compiled { build: build.clone(), stage: CompiledStage::CheckManifest }
    );
    assert_eq!(run.request(&ctx), Effect::PathExists { path: "/p/Cargo.toml".to_string() });
    assert_eq!(
        run.advance(&ctx, Reply::Exists { exists: false }),
        Step::Failed { error: BuildError::MissingManifest { path: "/p/Cargo.toml".to_string() } }
    );
}

#[test]
fn relative_paths_that_stay_within() {
    for inside in ["", ".", "sub", "sub/dir", "./sub", "a/../b", "a/b/../../c", "a/./b/", "a//b"] {
        assert!(path_stays_within(inside), "{:?} stays within", inside);
    }
    for outside in ["..", "../x", "a/../..", "a/../../b", "/", "/etc", "/work/project/sub"] {
        assert!(!path_stays_within(outside), "{:?} leaves", outside);
    }
}

#[test]
fn depth_is_counted_component_by_component() {
    let (normal, parent, current) = (PathPart::Normal, PathPart::ParentDir, PathPart::CurDir);
    let (root, prefix) = (PathPart::RootDir, PathPart::Prefix);
    assert!(parts_stay_within(&vec![]));
    assert!(parts_stay_within(&vec![normal, parent]));
    assert!(parts_stay_within(&vec![normal, normal, parent, parent, current, normal]));
    assert!(!parts_stay_within(&vec![parent]));
    assert!(!parts_stay_within(&vec![parent, normal]));
    assert!(!parts_stay_within(&vec![normal, parent, parent, normal, normal]));
    assert!(!parts_stay_within(&vec![root, normal]));
    assert!(!parts_stay_within(&vec![prefix, normal]));
    assert!(!parts_stay_within(&vec![normal, root]));
}

#[test]
fn white_space_is_the_unicode_property() {
    let mut text = String::new();
    for code in 0..=0x10FFFFu32 {
        let Some(c) = char::from_u32(code) else { continue };
        text.clear();
        text.push(c);
        assert_eq!(char_is_whitespace(c), c.is_whitespace(), "U+{:04X}", code);
        assert_eq!(blank(&text), text.trim().is_empty(), "U+{:04X}", code);
    }
}

#[test]
fn paths_within_a_base() {
    for (path, base) in [
        ("/work/project/sub", "/work/project"),
        ("/work/project", "/work/project"),
        ("/work/project/a/../b", "/work/project"),
        ("/work//project/./sub/", "/work/project/"),
        ("proj/sub", "proj"),
        ("sub", ""),
    ] {
        assert!(path_lies_within(path, base), "{:?} lies within {:?}", path, base);
    }
    for (path, base) in [
        ("/work/project/../other", "/work/project"),
        ("/work/projects", "/work/project"),
        ("/etc", "/work/project"),
        ("/work", "/work/project"),
        ("sub", "/work/project"),
    ] {
        assert!(!path_lies_within(path, base), "{:?} lies outside {:?}", path, base);
    }
}

use std::str::FromStr;

use single_pyo3::errors::ToolError;
use single_pyo3::runner::{plan_run, step, Event, LoadOutcome, RunConfig, RunState};

fn config() -> RunConfig {
    RunConfig {
        input_file_name: "foo-bar.ext".to_string(),
        pyo3_version: "*".to_string(),
        release: false,
        dll_extension: "so".to_string(),
    }
}

const INPUT: &str = "// depA = \"1.0\"\n// depB = \"2.0\"\nfn code() {}\n";

#[test]
fn debug_run_end_to_end_produces_module_artifact() {
    let state = RunState::Reading(config());
    let state = step(state, Event::InputLoaded(LoadOutcome::Loaded(INPUT.to_string())));
    let plan = match &state {
        RunState::Materializing(plan) => plan.clone(),
        other => panic!("expected Materializing, got {:?}", other),
    };
    // The workspace is named after the crate, the artifact after the module.
    assert_eq!(plan.crate_name, "foo-bar");
    assert_eq!(plan.module_name, "foo_bar");
    assert_eq!(plan.build_args, vec!["build".to_string()]);
    assert_eq!(plan.artifact_src, "target/debug/libfoo_bar.so");
    assert_eq!(plan.artifact_dst, "foo_bar.so");
    // The planned manifest holds the managed dependency and exactly the two
    // raw directive lines.
    let manifest_text = &plan.workspace.files[0].content;
    let t = toml::Table::from_str(manifest_text).expect("manifest must be valid TOML");
    let deps = t.get("dependencies").unwrap();
    assert!(deps.get("pyo3").unwrap().get("version").is_some());
    assert_eq!(deps.get("depA").unwrap().as_str(), Some("1.0"));
    assert_eq!(deps.get("depB").unwrap().as_str(), Some("2.0"));
    assert_eq!(deps.as_table().unwrap().len(), 3);
    assert!(manifest_text.ends_with("\n[dependencies]\ndepA = \"1.0\"\ndepB = \"2.0\""));
    // The copied entry file is byte-identical to the input.
    assert_eq!(plan.workspace.files[1].path, "src/lib.rs");
    assert_eq!(plan.workspace.files[1].content, INPUT);

    let state = step(state, Event::WorkspaceWritten(Ok(())));
    assert!(matches!(state, RunState::Building(_)));
    let state = step(state, Event::BuildFinished(Ok(true)));
    assert!(matches!(state, RunState::Locating(_)));
    let state = step(state, Event::ArtifactCopied(Ok(())));
    assert_eq!(state, RunState::Done);
}

#[test]
fn missing_artifact_fails_with_io_error_naming_path() {
    let state = RunState::Reading(config());
    let state = step(state, Event::InputLoaded(LoadOutcome::Loaded(INPUT.to_string())));
    let state = step(state, Event::WorkspaceWritten(Ok(())));
    // The build exits 0, but the expected output directory is absent.
    let state = step(state, Event::BuildFinished(Ok(true)));
    let state = step(
        state,
        Event::ArtifactCopied(Err("No such file or directory".to_string())),
    );
    assert_eq!(
        state,
        RunState::Failed(ToolError::Io(
            "target/debug/libfoo_bar.so: No such file or directory".to_string()
        ))
    );
    assert_ne!(state, RunState::Done);
}

#[test]
fn release_run_uses_release_paths() {
    let mut cfg = config();
    cfg.release = true;
    let state = RunState::Reading(cfg);
    let state = step(state, Event::InputLoaded(LoadOutcome::Loaded(INPUT.to_string())));
    match state {
        RunState::Materializing(plan) => {
            assert_eq!(plan.build_args, vec!["build".to_string(), "--release".to_string()]);
            assert_eq!(plan.artifact_src, "target/release/libfoo_bar.so");
        },
        other => panic!("expected Materializing, got {:?}", other),
    }
}

#[test]
fn failed_build_fails_the_run() {
    let state = RunState::Reading(config());
    let state = step(state, Event::InputLoaded(LoadOutcome::Loaded(INPUT.to_string())));
    let state = step(state, Event::WorkspaceWritten(Ok(())));
    let state = step(state, Event::BuildFinished(Ok(false)));
    assert_eq!(state, RunState::Failed(ToolError::Build));
}

#[test]
fn unreadable_input_fails_with_io_error() {
    let state = RunState::Reading(config());
    let state = step(
        state,
        Event::InputLoaded(LoadOutcome::IoFailure("no such file".to_string())),
    );
    assert_eq!(state, RunState::Failed(ToolError::Io("no such file".to_string())));
}

#[test]
fn undecodable_input_fails_with_decode_error() {
    let state = RunState::Reading(config());
    let state = step(state, Event::InputLoaded(LoadOutcome::DecodeFailure));
    assert_eq!(state, RunState::Failed(ToolError::Decode));
}

#[test]
fn workspace_write_failure_fails_the_run() {
    let state = RunState::Reading(config());
    let state = step(state, Event::InputLoaded(LoadOutcome::Loaded(INPUT.to_string())));
    let state = step(state, Event::WorkspaceWritten(Err("disk full".to_string())));
    assert_eq!(state, RunState::Failed(ToolError::Io("disk full".to_string())));
}

#[test]
fn empty_file_name_has_no_stem() {
    let cfg = RunConfig {
        input_file_name: String::new(),
        pyo3_version: "*".to_string(),
        release: false,
        dll_extension: "so".to_string(),
    };
    let r = plan_run(&cfg, "fn code() {}\n");
    assert_eq!(r, Err(ToolError::Io("No file stem".to_string())));
}

#[test]
fn error_descriptions() {
    assert_eq!(ToolError::Build.describe(), "cargo failed");
    assert_eq!(ToolError::Io("m".to_string()).describe(), "m");
    assert_eq!(ToolError::Decode.describe(), "input file is not valid text");
}

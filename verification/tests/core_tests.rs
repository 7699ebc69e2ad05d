use std::str::FromStr;

use single_pyo3::directives::collect_deps;
use single_pyo3::identity::{file_stem, module_name_of};
use single_pyo3::locate::{artifact_dest, artifact_rel_path};
use single_pyo3::manifest::{linker_config_text, pyo3_dependency, render_manifest, BuildManifest};
use single_pyo3::runner::build_args;
use single_pyo3::workspace::{file_content, plan_workspace};

#[test]
fn deps_collected_in_order() {
    let deps = collect_deps("// a = \"1\"\n// b = \"2\"\nfn main() {}\n");
    assert_eq!(deps, vec!["a = \"1\"".to_string(), "b = \"2\"".to_string()]);
}

#[test]
fn deps_stop_at_first_non_directive_even_if_later_lines_match() {
    let deps = collect_deps("// a\ncode\n// b\n");
    assert_eq!(deps, vec!["a".to_string()]);
}

#[test]
fn deps_empty_when_first_line_is_code() {
    let deps = collect_deps("fn main() {}\n// not collected\n");
    assert!(deps.is_empty());
}

#[test]
fn deps_blank_line_terminates_collection() {
    let deps = collect_deps("// a\n\n// b\n");
    assert_eq!(deps, vec!["a".to_string()]);
}

#[test]
fn deps_last_line_without_newline() {
    let deps = collect_deps("// only");
    assert_eq!(deps, vec!["only".to_string()]);
}

#[test]
fn deps_crlf_line_endings() {
    let deps = collect_deps("// a = \"1\"\r\ncode\r\n");
    assert_eq!(deps, vec!["a = \"1\"".to_string()]);
}

#[test]
fn deps_duplicates_kept() {
    let deps = collect_deps("// x\n// x\ncode\n");
    assert_eq!(deps, vec!["x".to_string(), "x".to_string()]);
}

#[test]
fn deps_need_space_after_comment_marker() {
    let deps = collect_deps("//x\n");
    assert!(deps.is_empty());
}

#[test]
fn deps_empty_payload_is_kept() {
    let deps = collect_deps("// \ncode\n");
    assert_eq!(deps, vec![String::new()]);
}

#[test]
fn deps_empty_input() {
    let deps = collect_deps("");
    assert!(deps.is_empty());
}

#[test]
fn module_name_replaces_every_hyphen() {
    assert_eq!(module_name_of("foo-bar"), "foo_bar");
    assert_eq!(module_name_of("a-b-c"), "a_b_c");
    assert_eq!(module_name_of("plain"), "plain");
    assert_eq!(module_name_of(""), "");
}

#[test]
fn stem_of_plain_file_name() {
    assert_eq!(file_stem("foo-bar.ext"), Some("foo-bar".to_string()));
    assert_eq!(file_stem("noext"), Some("noext".to_string()));
    assert_eq!(file_stem("a.b.c"), Some("a.b".to_string()));
    assert_eq!(file_stem(".hidden"), Some(".hidden".to_string()));
    assert_eq!(file_stem(""), None);
}

#[test]
fn released_mode_has_no_source_control_fields() {
    let dep = pyo3_dependency("0.15");
    assert_eq!(dep.version, "0.15");
    assert_eq!(dep.git, None);
    assert_eq!(dep.branch, None);
}

#[test]
fn source_mode_has_wildcard_version_and_fixed_repository() {
    let dep = pyo3_dependency("github");
    assert_eq!(dep.version, "*");
    assert_eq!(dep.git, Some("https://github.com/PyO3/pyo3".to_string()));
    assert_eq!(dep.branch, Some("main".to_string()));
}

#[test]
fn default_request_is_a_released_wildcard() {
    let dep = pyo3_dependency("*");
    assert_eq!(dep.version, "*");
    assert_eq!(dep.git, None);
    assert_eq!(dep.branch, None);
}

fn sample_manifest(version: &str) -> BuildManifest {
    BuildManifest {
        crate_name: "foo-bar".to_string(),
        module_name: "foo_bar".to_string(),
        pyo3: pyo3_dependency(version),
        dependency_lines: vec!["depA = \"1.0\"".to_string(), "depB = \"2.0\"".to_string()],
    }
}

#[test]
fn rendered_manifest_parses_as_toml_with_expected_fields() {
    let text = render_manifest(&sample_manifest("0.15"));
    let t = toml::Table::from_str(&text).expect("manifest must be valid TOML");
    let package = t.get("package").unwrap();
    assert_eq!(package.get("name").unwrap().as_str(), Some("foo-bar"));
    assert_eq!(package.get("version").unwrap().as_str(), Some("0.1.0"));
    assert_eq!(package.get("edition").unwrap().as_str(), Some("2018"));
    let lib = t.get("lib").unwrap();
    assert_eq!(lib.get("name").unwrap().as_str(), Some("foo_bar"));
    let crate_type: Vec<&str> =
        lib.get("crate-type").unwrap().as_array().unwrap().iter().map(|v| v.as_str().unwrap()).collect();
    assert_eq!(crate_type, vec!["cdylib"]);
    let pyo3 = t.get("dependencies").unwrap().get("pyo3").unwrap();
    assert_eq!(pyo3.get("version").unwrap().as_str(), Some("0.15"));
    let features: Vec<&str> =
        pyo3.get("features").unwrap().as_array().unwrap().iter().map(|v| v.as_str().unwrap()).collect();
    assert_eq!(features, vec!["extension-module"]);
    assert!(pyo3.get("git").is_none());
    assert!(pyo3.get("branch").is_none());
    // The user's raw dependency lines land in the trailing block.
    let deps = t.get("dependencies").unwrap();
    assert_eq!(deps.get("depA").unwrap().as_str(), Some("1.0"));
    assert_eq!(deps.get("depB").unwrap().as_str(), Some("2.0"));
}

#[test]
fn rendered_manifest_source_mode_has_git_and_branch() {
    let text = render_manifest(&sample_manifest("github"));
    let t = toml::Table::from_str(&text).expect("manifest must be valid TOML");
    let pyo3 = t.get("dependencies").unwrap().get("pyo3").unwrap();
    assert_eq!(pyo3.get("version").unwrap().as_str(), Some("*"));
    assert_eq!(pyo3.get("git").unwrap().as_str(), Some("https://github.com/PyO3/pyo3"));
    assert_eq!(pyo3.get("branch").unwrap().as_str(), Some("main"));
}

#[test]
fn rendered_manifest_ends_with_raw_dependency_block() {
    let text = render_manifest(&sample_manifest("0.15"));
    assert!(text.ends_with("\n[dependencies]\ndepA = \"1.0\"\ndepB = \"2.0\""));
}

#[test]
fn rendered_manifest_without_directives_has_empty_raw_block() {
    let mut m = sample_manifest("0.15");
    m.dependency_lines = Vec::new();
    let text = render_manifest(&m);
    assert!(text.ends_with("\n[dependencies]\n"));
}

#[test]
fn workspace_plan_lists_dirs_and_files_in_order() {
    let plan = plan_workspace("manifest text".to_string(), "input text");
    let dirs: Vec<&str> = plan.dirs.iter().map(|d| d.as_str()).collect();
    assert_eq!(dirs, vec!["src", ".cargo"]);
    assert_eq!(plan.files.len(), 3);
    assert_eq!(plan.files[0].path, "Cargo.toml");
    assert_eq!(plan.files[0].content, "manifest text");
    assert_eq!(plan.files[1].path, "src/lib.rs");
    assert_eq!(plan.files[2].path, ".cargo/config.toml");
}

#[test]
fn workspace_entry_file_round_trips_input() {
    let input = "// dep = \"1\"\nuse pyo3::prelude::*;\nfn f() {}\n";
    let plan = plan_workspace("whatever".to_string(), input);
    let back = file_content(&plan, "src/lib.rs").expect("entry file must be planned");
    assert_eq!(back, input);
}

#[test]
fn workspace_missing_path_yields_none() {
    let plan = plan_workspace("m".to_string(), "i");
    assert!(file_content(&plan, "src/main.rs").is_none());
}

#[test]
fn linker_config_parses_and_defers_symbol_resolution() {
    let text = linker_config_text();
    let t = toml::Table::from_str(&text).expect("linker config must be valid TOML");
    let target = t.get("target").unwrap();
    for triple in ["x86_64-apple-darwin", "aarch64-apple-darwin"] {
        let flags: Vec<&str> = target
            .get(triple)
            .unwrap()
            .get("rustflags")
            .unwrap()
            .as_array()
            .unwrap()
            .iter()
            .map(|v| v.as_str().unwrap())
            .collect();
        assert_eq!(flags, vec!["-C", "link-arg=-undefined", "-C", "link-arg=dynamic_lookup"]);
    }
}

#[test]
fn build_args_follow_profile() {
    let debug: Vec<String> = build_args(false);
    assert_eq!(debug, vec!["build".to_string()]);
    let release: Vec<String> = build_args(true);
    assert_eq!(release, vec!["build".to_string(), "--release".to_string()]);
}

#[test]
fn artifact_paths_follow_profile_and_platform() {
    assert_eq!(artifact_rel_path(false, "foo_bar", "so"), "target/debug/libfoo_bar.so");
    assert_eq!(artifact_rel_path(true, "foo_bar", "dylib"), "target/release/libfoo_bar.dylib");
    assert_eq!(artifact_dest("foo_bar"), "foo_bar.so");
}

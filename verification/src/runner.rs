//! The run pipeline as a state machine.  The crate decides; the caller
//! performs the outside work each state asks for (read the input file, write
//! the workspace, run the build, copy the artifact) and feeds the outcome
//! back as an [`Event`].  Every stage is sequential, the first failure ends
//! the run, and there is no retry.

use vstd::prelude::*;

use crate::directives::{collect_deps, seq_views, spec_collect_deps};
use crate::errors::{ToolError, ToolErrorView};
use crate::identity::{file_stem, module_name_of, spec_file_stem, spec_module_name};
use crate::locate::{
    artifact_dest, artifact_rel_path, spec_artifact_dest, spec_artifact_rel_path,
};
use crate::manifest::{
    pyo3_dependency, render_manifest, spec_manifest_text, spec_pyo3_dependency, BuildManifest,
    BuildManifestView,
};
use crate::workspace::{plan_workspace, spec_workspace_plan, WorkspacePlan};

verus! {

/// Mathematical model of a [`RunConfig`].
pub ghost struct RunConfigView {
    pub input_file_name: Seq<char>,
    pub pyo3_version: Seq<char>,
    pub release: bool,
    pub dll_extension: Seq<char>,
}

/// What a run is asked to do: the input file's name (the last path
/// component), the requested `pyo3` version, the build profile, and the
/// platform's native shared-library suffix.
#[derive(Debug, Clone, PartialEq, Eq)]
pub struct RunConfig {
    pub input_file_name: String,
    pub pyo3_version: String,
    pub release: bool,
    pub dll_extension: String,
}

impl View for RunConfig {
    type V = RunConfigView;

    open spec fn view(&self) -> RunConfigView {
        RunConfigView {
            input_file_name: self.input_file_name@,
            pyo3_version: self.pyo3_version@,
            release: self.release,
            dll_extension: self.dll_extension@,
        }
    }
}

/// Mathematical model of a [`RunPlan`].
pub ghost struct RunPlanView {
    pub crate_name: Seq<char>,
    pub module_name: Seq<char>,
    pub workspace: crate::workspace::WorkspacePlanView,
    pub build_args: Seq<Seq<char>>,
    pub artifact_src: Seq<char>,
    pub artifact_dst: Seq<char>,
}

/// Everything a run has decided before any outside work happens: the derived
/// project identity, the full workspace plan, the build command's arguments,
/// and the artifact's expected source and destination paths.
#[derive(Debug, Clone, PartialEq, Eq)]
pub struct RunPlan {
    pub crate_name: String,
    pub module_name: String,
    pub workspace: WorkspacePlan,
    pub build_args: Vec<String>,
    pub artifact_src: String,
    pub artifact_dst: String,
}

impl View for RunPlan {
    type V = RunPlanView;

    open spec fn view(&self) -> RunPlanView {
        RunPlanView {
            crate_name: self.crate_name@,
            module_name: self.module_name@,
            workspace: self.workspace@,
            build_args: seq_views(self.build_args@),
            artifact_src: self.artifact_src@,
            artifact_dst: self.artifact_dst@,
        }
    }
}

/// The build command's arguments: the build subcommand, plus the release
/// flag when the release profile is requested.
pub open spec fn spec_build_args(release: bool) -> Seq<Seq<char>> {
    if release {
        seq!["build"@, "--release"@]
    } else {
        seq!["build"@]
    }
}

/// Compute the build command's arguments.
pub fn build_args(release: bool) -> (r: Vec<String>)
    ensures
        seq_views(r@) == spec_build_args(release),
{
    let mut v: Vec<String> = Vec::new();
    v.push(String::from_str("build"));
    if release {
        v.push(String::from_str("--release"));
    }
    proof {
        assert(seq_views(v@) =~~= spec_build_args(release));
    }
    v
}

/// The error a run fails with when the input path has no file stem.
pub open spec fn spec_no_stem_error() -> ToolErrorView {
    ToolErrorView::Io("No file stem"@)
}

/// The plan derived from the configuration and the input file's text, or
/// `None` when the input file's name is empty and no crate name can be
/// derived from it.
pub open spec fn spec_run_plan(cfg: RunConfigView, content: Seq<char>) -> Option<RunPlanView> {
    if cfg.input_file_name.len() == 0 {
        Option::None
    } else {
        let crate_name = spec_file_stem(cfg.input_file_name);
        let module_name = spec_module_name(crate_name);
        let m = BuildManifestView {
            crate_name: crate_name,
            module_name: module_name,
            pyo3: spec_pyo3_dependency(cfg.pyo3_version),
            dependency_lines: spec_collect_deps(content),
        };
        Option::Some(
            RunPlanView {
                crate_name: crate_name,
                module_name: module_name,
                workspace: spec_workspace_plan(spec_manifest_text(m), content),
                build_args: spec_build_args(cfg.release),
                artifact_src: spec_artifact_rel_path(cfg.release, module_name, cfg.dll_extension),
                artifact_dst: spec_artifact_dest(module_name),
            },
        )
    }
}

/// Derive the whole run plan: crate and module name from the input file's
/// name, the dependency directives from its content, the manifest, the
/// workspace, the build arguments and the artifact paths.  Pure construction;
/// no outside work happens here.
pub fn plan_run(cfg: &RunConfig, content: &str) -> (r: Result<RunPlan, ToolError>)
    ensures
        match r {
            Ok(plan) => spec_run_plan(cfg@, content@) == Option::Some(plan@),
            Err(e) => spec_run_plan(cfg@, content@) is None && e@ == spec_no_stem_error(),
        },
{
    let crate_name = match file_stem(cfg.input_file_name.as_str()) {
        Some(s) => s,
        None => {
            return Err(ToolError::Io(String::from_str("No file stem")));
        },
    };
    let module_name = module_name_of(crate_name.as_str());
    let manifest = BuildManifest {
        crate_name: crate_name.clone(),
        module_name: module_name.clone(),
        pyo3: pyo3_dependency(cfg.pyo3_version.as_str()),
        dependency_lines: collect_deps(content),
    };
    let manifest_text = render_manifest(&manifest);
    let workspace = plan_workspace(manifest_text, content);
    let args = build_args(cfg.release);
    let artifact_src = artifact_rel_path(
        cfg.release,
        module_name.as_str(),
        cfg.dll_extension.as_str(),
    );
    let artifact_dst = artifact_dest(module_name.as_str());
    let plan = RunPlan {
        crate_name,
        module_name,
        workspace,
        build_args: args,
        artifact_src,
        artifact_dst,
    };
    Ok(plan)
}

/// The outcome of reading and decoding the input file.
#[derive(Debug, Clone, PartialEq, Eq)]
pub enum LoadOutcome {
    /// The file was read and is valid text.
    Loaded(String),
    /// The file could not be read; the message names the failure.
    IoFailure(String),
    /// The file was read but is not valid text.
    DecodeFailure,
}

/// Mathematical model of a [`LoadOutcome`].
pub ghost enum LoadOutcomeView {
    Loaded(Seq<char>),
    IoFailure(Seq<char>),
    DecodeFailure,
}

impl View for LoadOutcome {
    type V = LoadOutcomeView;

    open spec fn view(&self) -> LoadOutcomeView {
        match self {
            LoadOutcome::Loaded(c) => LoadOutcomeView::Loaded(c@),
            LoadOutcome::IoFailure(m) => LoadOutcomeView::IoFailure(m@),
            LoadOutcome::DecodeFailure => LoadOutcomeView::DecodeFailure,
        }
    }
}

/// The outcome of one piece of outside work, fed back into the machine.
#[derive(Debug, PartialEq, Eq)]
pub enum Event {
    /// The input file was read and decoded, or failed to be.
    InputLoaded(LoadOutcome),
    /// The workspace was written as planned, or a write failed.
    WorkspaceWritten(Result<(), String>),
    /// The build process finished with the given success flag, or could not
    /// be run at all.
    BuildFinished(Result<bool, String>),
    /// The artifact was copied to its destination, or the copy failed.
    ArtifactCopied(Result<(), String>),
}

/// Mathematical model of an [`Event`].
pub ghost enum EventView {
    InputLoaded(LoadOutcomeView),
    WorkspaceWritten(Result<(), Seq<char>>),
    BuildFinished(Result<bool, Seq<char>>),
    ArtifactCopied(Result<(), Seq<char>>),
}

impl View for Event {
    type V = EventView;

    open spec fn view(&self) -> EventView {
        match self {
            Event::InputLoaded(o) => EventView::InputLoaded(o@),
            Event::WorkspaceWritten(r) => EventView::WorkspaceWritten(
                match r {
                    Result::Ok(u) => Result::Ok(()),
                    Result::Err(m) => Result::Err(m@),
                },
            ),
            Event::BuildFinished(r) => EventView::BuildFinished(
                match r {
                    Result::Ok(b) => Result::Ok(*b),
                    Result::Err(m) => Result::Err(m@),
                },
            ),
            Event::ArtifactCopied(r) => EventView::ArtifactCopied(
                match r {
                    Result::Ok(u) => Result::Ok(()),
                    Result::Err(m) => Result::Err(m@),
                },
            ),
        }
    }
}

/// Where a run stands, and thereby what outside work the caller owes it
/// next: read the input in `Reading`, write the workspace in
/// `Materializing`, run the build in `Building`, copy the artifact in
/// `Locating`.  `Done` and `Failed` are terminal.
#[derive(Debug, Clone, PartialEq, Eq)]
pub enum RunState {
    Reading(RunConfig),
    Materializing(RunPlan),
    Building(RunPlan),
    Locating(RunPlan),
    Done,
    Failed(ToolError),
}

/// Mathematical model of a [`RunState`].
pub ghost enum RunStateView {
    Reading(RunConfigView),
    Materializing(RunPlanView),
    Building(RunPlanView),
    Locating(RunPlanView),
    Done,
    Failed(ToolErrorView),
}

impl View for RunState {
    type V = RunStateView;

    open spec fn view(&self) -> RunStateView {
        match self {
            RunState::Reading(cfg) => RunStateView::Reading(cfg@),
            RunState::Materializing(p) => RunStateView::Materializing(p@),
            RunState::Building(p) => RunStateView::Building(p@),
            RunState::Locating(p) => RunStateView::Locating(p@),
            RunState::Done => RunStateView::Done,
            RunState::Failed(e) => RunStateView::Failed(e@),
        }
    }
}

/// The transition table of a run.  An event that does not answer the current
/// state leaves the state unchanged; terminal states absorb every event.
pub open spec fn spec_step(s: RunStateView, e: EventView) -> RunStateView {
    match (s, e) {
        (RunStateView::Reading(cfg), EventView::InputLoaded(o)) => match o {
            LoadOutcomeView::Loaded(content) => match spec_run_plan(cfg, content) {
                Option::Some(p) => RunStateView::Materializing(p),
                Option::None => RunStateView::Failed(spec_no_stem_error()),
            },
            LoadOutcomeView::IoFailure(m) => RunStateView::Failed(ToolErrorView::Io(m)),
            LoadOutcomeView::DecodeFailure => RunStateView::Failed(ToolErrorView::Decode),
        },
        (RunStateView::Materializing(p), EventView::WorkspaceWritten(r)) => match r {
            Result::Ok(u) => RunStateView::Building(p),
            Result::Err(m) => RunStateView::Failed(ToolErrorView::Io(m)),
        },
        (RunStateView::Building(p), EventView::BuildFinished(r)) => match r {
            Result::Ok(success) => if success {
                RunStateView::Locating(p)
            } else {
                RunStateView::Failed(ToolErrorView::Build)
            },
            Result::Err(m) => RunStateView::Failed(ToolErrorView::Io(m)),
        },
        (RunStateView::Locating(p), EventView::ArtifactCopied(r)) => match r {
            Result::Ok(u) => RunStateView::Done,
            Result::Err(m) => RunStateView::Failed(
                ToolErrorView::Io(p.artifact_src + ": "@ + m),
            ),
        },
        (other, _) => other,
    }
}

/// Advance the run by one event.
pub fn step(state: RunState, event: Event) -> (r: RunState)
    ensures
        r@ == spec_step(state@, event@),
{
    match (state, event) {
        (RunState::Reading(cfg), Event::InputLoaded(outcome)) => match outcome {
            LoadOutcome::Loaded(content) => match plan_run(&cfg, content.as_str()) {
                Ok(plan) => RunState::Materializing(plan),
                Err(e) => RunState::Failed(e),
            },
            LoadOutcome::IoFailure(m) => RunState::Failed(ToolError::Io(m)),
            LoadOutcome::DecodeFailure => RunState::Failed(ToolError::Decode),
        },
        (RunState::Materializing(p), Event::WorkspaceWritten(r)) => match r {
            Ok(_) => RunState::Building(p),
            Err(m) => RunState::Failed(ToolError::Io(m)),
        },
        (RunState::Building(p), Event::BuildFinished(r)) => match r {
            Ok(success) => if success {
                RunState::Locating(p)
            } else {
                RunState::Failed(ToolError::Build)
            },
            Err(m) => RunState::Failed(ToolError::Io(m)),
        },
        (RunState::Locating(p), Event::ArtifactCopied(r)) => match r {
            Ok(_) => RunState::Done,
            Err(m) => {
                let mut msg = p.artifact_src.clone();
                msg.append(": ");
                msg.append(m.as_str());
                RunState::Failed(ToolError::Io(msg))
            },
        },
        (other, _) => other,
    }
}

/// A run reports success only after the artifact was actually copied: the
/// only transition into `Done` answers the copy's success, and a failed copy
/// — the build having exited successfully — fails the run with an I/O error
/// naming the expected artifact path.
pub proof fn lemma_no_silent_success(s: RunStateView, e: EventView)
    ensures
        spec_step(s, e) is Done ==> s is Done || (s is Locating && e == EventView::ArtifactCopied(
            Result::<(), Seq<char>>::Ok(()),
        )),
        forall|p: RunPlanView, m: Seq<char>|
            s == RunStateView::Locating(p) && e == EventView::ArtifactCopied(
                Result::<(), Seq<char>>::Err(m),
            ) ==> spec_step(s, e) == RunStateView::Failed(
                ToolErrorView::Io(p.artifact_src + ": "@ + m),
            ),
{
    if s is Locating && e is ArtifactCopied {
        let r = e->ArtifactCopied_0;
        if r is Ok {
            assert(r->Ok_0 == ());
            assert(r == Result::<(), Seq<char>>::Ok(()));
        }
    }
}

} // verus!

//! The workspace materializer's plan: the directories to create and the
//! files to write, relative to the ephemeral workspace root.  The caller
//! carries the plan out; the plan itself fixes every path and every byte of
//! content, so the workspace is self-contained and never references the
//! original input again.

use vstd::prelude::*;

use crate::directives::seq_views;
use crate::manifest::{linker_config_text, spec_linker_config};
use crate::text::str_eq;

verus! {

/// Mathematical model of a [`FileEntry`].
pub ghost struct FileEntryView {
    pub path: Seq<char>,
    pub content: Seq<char>,
}

/// One file of the workspace: a path relative to the workspace root, and the
/// full content to write there.
#[derive(Debug, Clone, PartialEq, Eq)]
pub struct FileEntry {
    pub path: String,
    pub content: String,
}

impl View for FileEntry {
    type V = FileEntryView;

    open spec fn view(&self) -> FileEntryView {
        FileEntryView { path: self.path@, content: self.content@ }
    }
}

/// Mathematical model of a [`WorkspacePlan`].
pub ghost struct WorkspacePlanView {
    pub dirs: Seq<Seq<char>>,
    pub files: Seq<FileEntryView>,
}

/// The plan of the ephemeral workspace: directories in creation order, then
/// files in write order.
#[derive(Debug, Clone, PartialEq, Eq)]
pub struct WorkspacePlan {
    pub dirs: Vec<String>,
    pub files: Vec<FileEntry>,
}

impl View for WorkspacePlan {
    type V = WorkspacePlanView;

    open spec fn view(&self) -> WorkspacePlanView {
        WorkspacePlanView {
            dirs: seq_views(self.dirs@),
            files: self.files@.map_values(|f: FileEntry| f@),
        }
    }
}

/// The conventional module-entry path the input source is copied to.
pub open spec fn spec_entry_path() -> Seq<char> {
    "src/lib.rs"@
}

/// The workspace holds the source subdirectory and the linker-configuration
/// subdirectory, the serialized manifest, a verbatim copy of the input
/// source at the module-entry path, and the static linker-flags file.
pub open spec fn spec_workspace_plan(manifest_text: Seq<char>, input: Seq<char>)
    -> WorkspacePlanView {
    WorkspacePlanView {
        dirs: seq!["src"@, ".cargo"@],
        files: seq![
            FileEntryView { path: "Cargo.toml"@, content: manifest_text },
            FileEntryView { path: spec_entry_path(), content: input },
            FileEntryView { path: ".cargo/config.toml"@, content: spec_linker_config() },
        ],
    }
}

/// Plan the workspace for a serialized manifest and the input source text.
pub fn plan_workspace(manifest_text: String, input: &str) -> (r: WorkspacePlan)
    ensures
        r@.dirs == spec_workspace_plan(manifest_text@, input@).dirs,
        r@.files == spec_workspace_plan(manifest_text@, input@).files,
{
    let ghost manifest_view = manifest_text@;
    let mut dirs: Vec<String> = Vec::new();
    dirs.push(String::from_str("src"));
    dirs.push(String::from_str(".cargo"));
    let mut files: Vec<FileEntry> = Vec::new();
    files.push(FileEntry { path: String::from_str("Cargo.toml"), content: manifest_text });
    files.push(FileEntry { path: String::from_str("src/lib.rs"), content: input.to_owned() });
    files.push(
        FileEntry { path: String::from_str(".cargo/config.toml"), content: linker_config_text() },
    );
    let r = WorkspacePlan { dirs, files };
    proof {
        assert(r@.dirs =~= spec_workspace_plan(manifest_view, input@).dirs);
        assert(r@.files =~= spec_workspace_plan(manifest_view, input@).files);
    }
    r
}

/// The content the plan assigns to `path`: the first matching file entry.
pub open spec fn spec_lookup(files: Seq<FileEntryView>, path: Seq<char>) -> Option<Seq<char>>
    decreases files.len(),
{
    if files.len() == 0 {
        Option::None
    } else if files[0].path == path {
        Option::Some(files[0].content)
    } else {
        spec_lookup(files.skip(1), path)
    }
}

/// Read a file back from the plan by its path.
pub fn file_content<'a>(plan: &'a WorkspacePlan, path: &str) -> (r: Option<&'a String>)
    ensures
        match r {
            Some(c) => spec_lookup(plan@.files, path@) == Option::Some(c@),
            None => spec_lookup(plan@.files, path@) is None,
        },
{
    let n = plan.files.len();
    let mut i: usize = 0;
    proof {
        assert(plan@.files.skip(0) =~= plan@.files);
    }
    while i < n
        invariant
            i <= n,
            n == plan@.files.len(),
            spec_lookup(plan@.files, path@) == spec_lookup(plan@.files.skip(i as int), path@),
        decreases n - i,
    {
        proof {
            assert(plan@.files.skip(i as int)[0] == plan@.files[i as int]);
            assert(plan@.files.skip(i as int).skip(1) =~= plan@.files.skip(i + 1 as int));
        }
        if str_eq(plan.files[i].path.as_str(), path) {
            return Some(&plan.files[i].content);
        }
        i = i + 1;
    }
    proof {
        assert(plan@.files.skip(i as int) =~= Seq::<FileEntryView>::empty());
    }
    None
}

/// Round trip: the plan stores the input source, character for character, as
/// the module-entry file, so materializing the workspace and reading the
/// entry file back yields content identical to the original input.
pub proof fn lemma_workspace_roundtrip(manifest_text: Seq<char>, input: Seq<char>)
    ensures
        spec_lookup(spec_workspace_plan(manifest_text, input).files, spec_entry_path())
            == Option::Some(input),
{
    reveal_strlit("Cargo.toml");
    reveal_strlit("src/lib.rs");
    let files = spec_workspace_plan(manifest_text, input).files;
    assert("Cargo.toml"@[0] == 'C');
    assert("src/lib.rs"@[0] == 's');
    assert(files[0].path != spec_entry_path());
    assert(files.skip(1)[0] == files[1]);
    assert(spec_lookup(files.skip(1), spec_entry_path()) == Option::Some(input));
}

} // verus!

//! The manifest builder: the structured build manifest around the single
//! managed `pyo3` dependency, its serialized text, and the auxiliary linker
//! configuration that lets the extension module resolve its symbols when it
//! is loaded rather than when it is linked.

use vstd::prelude::*;

use crate::directives::seq_views;
use crate::text::str_eq;

verus! {

/// Mathematical model of a [`PyDependency`].
pub ghost struct PyDependencyView {
    pub version: Seq<char>,
    pub git: Option<Seq<char>>,
    pub branch: Option<Seq<char>>,
}

/// The managed `pyo3` dependency entry of the generated manifest: a released
/// version, or a source-control reference when the latest sources are
/// requested.
#[derive(Debug, Clone, PartialEq, Eq)]
pub struct PyDependency {
    pub version: String,
    pub git: Option<String>,
    pub branch: Option<String>,
}

impl View for PyDependency {
    type V = PyDependencyView;

    open spec fn view(&self) -> PyDependencyView {
        PyDependencyView {
            version: self.version@,
            git: match self.git {
                Option::Some(g) => Option::Some(g@),
                Option::None => Option::None,
            },
            branch: match self.branch {
                Option::Some(b) => Option::Some(b@),
                Option::None => Option::None,
            },
        }
    }
}

/// The version request that selects source mode.
pub open spec fn spec_source_mode_token() -> Seq<char> {
    "github"@
}

/// The fixed repository the source mode points at.
pub open spec fn spec_pyo3_git_url() -> Seq<char> {
    "https://github.com/PyO3/pyo3"@
}

/// The fixed branch the source mode points at.
pub open spec fn spec_pyo3_git_branch() -> Seq<char> {
    "main"@
}

/// The managed dependency resolved from the requested version: `github`
/// selects source mode (wildcard version, fixed repository and branch), any
/// other request is used verbatim as a released version.
pub open spec fn spec_pyo3_dependency(requested: Seq<char>) -> PyDependencyView {
    if requested == spec_source_mode_token() {
        PyDependencyView {
            version: "*"@,
            git: Option::Some(spec_pyo3_git_url()),
            branch: Option::Some(spec_pyo3_git_branch()),
        }
    } else {
        PyDependencyView { version: requested, git: Option::None, branch: Option::None }
    }
}

/// Released mode never carries source-control fields; source mode always
/// carries the wildcard version, the fixed repository URL and the fixed
/// branch.
pub proof fn lemma_dependency_mode_fields(requested: Seq<char>)
    ensures
        requested != spec_source_mode_token() ==> spec_pyo3_dependency(requested)
            == (PyDependencyView { version: requested, git: Option::None, branch: Option::None }),
        requested == spec_source_mode_token() ==> spec_pyo3_dependency(requested)
            == (PyDependencyView {
            version: "*"@,
            git: Option::Some(spec_pyo3_git_url()),
            branch: Option::Some(spec_pyo3_git_branch()),
        }),
{
}

/// Resolve the managed dependency from the requested version string.
pub fn pyo3_dependency(requested: &str) -> (r: PyDependency)
    ensures
        r@ == spec_pyo3_dependency(requested@),
{
    if str_eq(requested, "github") {
        PyDependency {
            version: String::from_str("*"),
            git: Some(String::from_str("https://github.com/PyO3/pyo3")),
            branch: Some(String::from_str("main")),
        }
    } else {
        PyDependency { version: requested.to_owned(), git: None, branch: None }
    }
}

/// Mathematical model of a [`BuildManifest`].
pub ghost struct BuildManifestView {
    pub crate_name: Seq<char>,
    pub module_name: Seq<char>,
    pub pyo3: PyDependencyView,
    pub dependency_lines: Seq<Seq<char>>,
}

/// The build manifest: package identity, the library section declaring a
/// dynamically loadable C-compatible library named after the module, the
/// managed `pyo3` dependency, and the user's raw dependency lines, which are
/// spliced in verbatim under a trailing `[dependencies]` heading.
#[derive(Debug, Clone, PartialEq, Eq)]
pub struct BuildManifest {
    pub crate_name: String,
    pub module_name: String,
    pub pyo3: PyDependency,
    pub dependency_lines: Vec<String>,
}

impl View for BuildManifest {
    type V = BuildManifestView;

    open spec fn view(&self) -> BuildManifestView {
        BuildManifestView {
            crate_name: self.crate_name@,
            module_name: self.module_name@,
            pyo3: self.pyo3@,
            dependency_lines: seq_views(self.dependency_lines@),
        }
    }
}

/// `lines` joined by single newlines, with no trailing newline.
pub open spec fn spec_join_newline(lines: Seq<Seq<char>>) -> Seq<char>
    decreases lines.len(),
{
    if lines.len() == 0 {
        Seq::empty()
    } else if lines.len() == 1 {
        lines[0]
    } else {
        lines[0] + seq!['\n'] + spec_join_newline(lines.skip(1))
    }
}

/// The serialized text of the manifest: the structured document, then the
/// raw `[dependencies]` block holding the user's directive lines unmodified.
/// The second `[dependencies]` heading is deliberate: it keeps the
/// user-specified raw syntax apart from the tool-managed entry.
pub open spec fn spec_manifest_text(m: BuildManifestView) -> Seq<char> {
    "[package]\nname = \""@ + m.crate_name
        + "\"\nversion = \"0.1.0\"\nedition = \"2018\"\n\n[lib]\nname = \""@ + m.module_name
        + "\"\ncrate-type = [\"cdylib\"]\n\n[dependencies.pyo3]\nversion = \""@ + m.pyo3.version
        + "\"\nfeatures = [\"extension-module\"]\n"@ + (match m.pyo3.git {
        Option::Some(g) => "git = \""@ + g + "\"\n"@,
        Option::None => Seq::empty(),
    }) + (match m.pyo3.branch {
        Option::Some(b) => "branch = \""@ + b + "\"\n"@,
        Option::None => Seq::empty(),
    }) + "\n[dependencies]\n"@ + spec_join_newline(m.dependency_lines)
}

/// Append `lines[i..]` to `out`, joined by newlines.
fn append_joined(out: &mut String, lines: &Vec<String>, i: usize)
    requires
        i <= lines@.len(),
    ensures
        final(out)@ == old(out)@ + spec_join_newline(seq_views(lines@).skip(i as int)),
    decreases lines@.len() - i,
{
    if i < lines.len() {
        out.append(lines[i].as_str());
        if i + 1 < lines.len() {
            out.append("\n");
        }
        append_joined(out, lines, i + 1);
        proof {
            reveal_strlit("\n");
            assert("\n"@ =~= seq!['\n']);
            let vs = seq_views(lines@);
            assert(vs.skip(i as int).len() == lines@.len() - i);
            assert(vs.skip(i as int)[0] == lines@[i as int]@);
            assert(vs.skip(i as int).skip(1) =~~= vs.skip(i + 1 as int));
            if i + 1 < lines.len() {
                assert(spec_join_newline(vs.skip(i as int)) == vs.skip(i as int)[0] + seq!['\n']
                    + spec_join_newline(vs.skip(i as int).skip(1)));
            } else {
                assert(vs.skip(i as int).len() == 1);
                assert(spec_join_newline(vs.skip(i as int)) == vs.skip(i as int)[0]);
            }
            assert(out@ =~= old(out)@ + spec_join_newline(vs.skip(i as int)));
        }
    } else {
        proof {
            assert(seq_views(lines@).skip(i as int) =~~= Seq::<Seq<char>>::empty());
        }
    }
}

/// Serialize the manifest.  Pure construction: writing the text into the
/// workspace is the caller's side of the boundary.
pub fn render_manifest(m: &BuildManifest) -> (r: String)
    ensures
        r@ == spec_manifest_text(m@),
{
    let mut out = String::new();
    out.append("[package]\nname = \"");
    out.append(m.crate_name.as_str());
    out.append("\"\nversion = \"0.1.0\"\nedition = \"2018\"\n\n[lib]\nname = \"");
    out.append(m.module_name.as_str());
    out.append("\"\ncrate-type = [\"cdylib\"]\n\n[dependencies.pyo3]\nversion = \"");
    out.append(m.pyo3.version.as_str());
    out.append("\"\nfeatures = [\"extension-module\"]\n");
    match &m.pyo3.git {
        Some(g) => {
            out.append("git = \"");
            out.append(g.as_str());
            out.append("\"\n");
        },
        None => {},
    }
    match &m.pyo3.branch {
        Some(b) => {
            out.append("branch = \"");
            out.append(b.as_str());
            out.append("\"\n");
        },
        None => {},
    }
    out.append("\n[dependencies]\n");
    append_joined(&mut out, &m.dependency_lines, 0);
    proof {
        assert(seq_views(m.dependency_lines@).skip(0) =~~= seq_views(m.dependency_lines@));
        assert(out@ =~= spec_manifest_text(m@));
    }
    out
}

/// The auxiliary linker configuration: for the platforms whose linker
/// resolves every symbol at link time, defer resolution of the host
/// process's symbols to load time instead.
pub open spec fn spec_linker_config() -> Seq<char> {
    "\n[target.x86_64-apple-darwin]\nrustflags = [\n  \"-C\", \"link-arg=-undefined\",\n  \"-C\", \"link-arg=dynamic_lookup\",\n]\n\n[target.aarch64-apple-darwin]\nrustflags = [\n  \"-C\", \"link-arg=-undefined\",\n  \"-C\", \"link-arg=dynamic_lookup\",\n]"@
}

/// The text of the auxiliary linker-configuration file.
pub fn linker_config_text() -> (r: String)
    ensures
        r@ == spec_linker_config(),
{
    String::from_str(
        "\n[target.x86_64-apple-darwin]\nrustflags = [\n  \"-C\", \"link-arg=-undefined\",\n  \"-C\", \"link-arg=dynamic_lookup\",\n]\n\n[target.aarch64-apple-darwin]\nrustflags = [\n  \"-C\", \"link-arg=-undefined\",\n  \"-C\", \"link-arg=dynamic_lookup\",\n]",
    )
}

} // verus!

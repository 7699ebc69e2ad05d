//! The artifact locator: where the build system leaves the compiled shared
//! library inside the workspace, and the fixed destination name it is copied
//! to.  The destination always ends in `.so` whatever the platform's native
//! suffix: the consuming Python runtime expects that suffix uniformly.

use vstd::prelude::*;

verus! {

/// The build profile's output directory under `target/`.
pub open spec fn spec_profile_dir(release: bool) -> Seq<char> {
    if release {
        "release"@
    } else {
        "debug"@
    }
}

/// The artifact's path relative to the workspace root:
/// `target/<profile>/lib<module_name>.<dll_extension>`, where the extension
/// is the platform's native shared-library suffix.
pub open spec fn spec_artifact_rel_path(
    release: bool,
    module_name: Seq<char>,
    dll_extension: Seq<char>,
) -> Seq<char> {
    "target/"@ + spec_profile_dir(release) + "/lib"@ + module_name + "."@ + dll_extension
}

/// The destination the artifact is copied to, in the invoker's working
/// directory: `<module_name>.so`, regardless of the source platform's real
/// extension.
pub open spec fn spec_artifact_dest(module_name: Seq<char>) -> Seq<char> {
    module_name + ".so"@
}

/// Compute the expected artifact path relative to the workspace root.
pub fn artifact_rel_path(release: bool, module_name: &str, dll_extension: &str) -> (r: String)
    ensures
        r@ == spec_artifact_rel_path(release, module_name@, dll_extension@),
{
    let mut out = String::from_str("target/");
    if release {
        out.append("release");
    } else {
        out.append("debug");
    }
    out.append("/lib");
    out.append(module_name);
    out.append(".");
    out.append(dll_extension);
    proof {
        assert(out@ =~= spec_artifact_rel_path(release, module_name@, dll_extension@));
    }
    out
}

/// Compute the artifact's destination file name.
pub fn artifact_dest(module_name: &str) -> (r: String)
    ensures
        r@ == spec_artifact_dest(module_name@),
{
    let mut out = module_name.to_owned();
    out.append(".so");
    out
}

} // verus!

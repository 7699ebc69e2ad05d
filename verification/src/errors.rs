//! The error kinds a run can fail with.

use vstd::prelude::*;

verus! {

/// Mathematical model of a [`ToolError`].
pub ghost enum ToolErrorView {
    /// The input file is not valid text.
    Decode,
    /// A filesystem operation failed; the message names the file concerned.
    Io(Seq<char>),
    /// Rendering the manifest failed; kept for defensive surfacing, no
    /// rendering path in this crate produces it.
    Serialization(Seq<char>),
    /// The external build process exited with a non-zero status.
    Build,
}

/// The failure of a run.  Every stage reports the first error to its caller;
/// there is no retry or local recovery anywhere in the pipeline.
#[derive(Debug, Clone, PartialEq, Eq)]
pub enum ToolError {
    /// The input file is not valid text.
    Decode,
    /// A filesystem operation failed; the message names the file concerned.
    Io(String),
    /// Rendering the manifest failed; kept for defensive surfacing, no
    /// rendering path in this crate produces it.
    Serialization(String),
    /// The external build process exited with a non-zero status.
    Build,
}

impl View for ToolError {
    type V = ToolErrorView;

    open spec fn view(&self) -> ToolErrorView {
        match self {
            ToolError::Decode => ToolErrorView::Decode,
            ToolError::Io(m) => ToolErrorView::Io(m@),
            ToolError::Serialization(m) => ToolErrorView::Serialization(m@),
            ToolError::Build => ToolErrorView::Build,
        }
    }
}

impl ToolError {
    /// A human-readable description of the error.
    pub fn describe(&self) -> (r: String)
        ensures
            self@ is Decode ==> r@ == "input file is not valid text"@,
            self@ is Io ==> r@ == self@->Io_0,
            self@ is Serialization ==> r@ == self@->Serialization_0,
            self@ is Build ==> r@ == "cargo failed"@,
    {
        match self {
            ToolError::Decode => String::from_str("input file is not valid text"),
            ToolError::Io(m) => m.clone(),
            ToolError::Serialization(m) => m.clone(),
            ToolError::Build => String::from_str("cargo failed"),
        }
    }
}

} // verus!

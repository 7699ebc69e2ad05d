//! Builds a single Rust source file into a loadable Python extension module:
//! parses leading dependency directives from the file, generates a Cargo
//! manifest and linker configuration around it, plans the ephemeral build
//! workspace, and drives the external build that produces the shared-library
//! artifact.
//!
//! The crate holds the decisions of the pipeline; reading the input file,
//! writing the workspace, spawning the build process and copying the artifact
//! are performed by the caller, which feeds each outcome back into the
//! [`runner`] state machine.

pub mod directives;
pub mod errors;
pub mod identity;
pub mod locate;
pub mod manifest;
pub mod runner;
pub mod text;
pub mod workspace;

//! Validation results, the errors a validation reports, and how the results
//! of several constituent tools are put together.
use crate::overlay::{merged, StringMap};
use vstd::prelude::*;

verus! {

/// Why validating a tool failed. Each error names the tool or the thing it is about.
#[derive(Debug, PartialEq, Eq)]
pub enum ValidationError {
    /// No attempt located a working executable.
    NotFound { tool: String },
    /// The executable started but reported failure.
    NonZeroExit { tool: String },
    /// The executable works but reports a version without the expected prefix.
    VersionMismatch { tool: String, expected: String, found: String },
    /// The version pattern found no version in the executable's output.
    NoVersionMatch { tool: String },
    /// The output was not valid text where text was needed.
    InvalidOutput { tool: String },
    /// The logical tool name is not one this engine knows.
    UnrecognizedTool { tool: String },
    /// The version pattern configured for the tool does not compile.
    InvalidPattern { tool: String },
    /// The toolchain component is not in the configuration.
    UnrecognizedComponent { component: String },
    /// The toolchain is not installed.
    MissingToolchain { toolchain: String },
    /// The helper script is not one this engine knows how to fetch.
    UnrecognizedBin { tool: String },
}

/// A validation error seen as text.
pub enum ErrorView {
    NotFound(Seq<char>),
    NonZeroExit(Seq<char>),
    VersionMismatch(Seq<char>, Seq<char>, Seq<char>),
    NoVersionMatch(Seq<char>),
    InvalidOutput(Seq<char>),
    UnrecognizedTool(Seq<char>),
    InvalidPattern(Seq<char>),
    UnrecognizedComponent(Seq<char>),
    MissingToolchain(Seq<char>),
    UnrecognizedBin(Seq<char>),
}

impl View for ValidationError {
    type V = ErrorView;

    open spec fn view(&self) -> ErrorView {
        match self {
            ValidationError::NotFound { tool } => ErrorView::NotFound(tool@),
            ValidationError::NonZeroExit { tool } => ErrorView::NonZeroExit(tool@),
            ValidationError::VersionMismatch { tool, expected, found } => ErrorView::VersionMismatch(
                tool@,
                expected@,
                found@,
            ),
            ValidationError::NoVersionMatch { tool } => ErrorView::NoVersionMatch(tool@),
            ValidationError::InvalidOutput { tool } => ErrorView::InvalidOutput(tool@),
            ValidationError::UnrecognizedTool { tool } => ErrorView::UnrecognizedTool(tool@),
            ValidationError::InvalidPattern { tool } => ErrorView::InvalidPattern(tool@),
            ValidationError::UnrecognizedComponent { component } => ErrorView::UnrecognizedComponent(
                component@,
            ),
            ValidationError::MissingToolchain { toolchain } => ErrorView::MissingToolchain(
                toolchain@,
            ),
            ValidationError::UnrecognizedBin { tool } => ErrorView::UnrecognizedBin(tool@),
        }
    }
}

/// The outcome of validating tools: which tool names resolved to another
/// executable name, and the environment to spawn them with.
pub struct Validation {
    /// Logical tool name to the executable name that was found to work.
    pub tools: StringMap,
    /// Environment variables to set when spawning the tools.
    pub env_vars: StringMap,
}

impl Validation {
    /// Both tables have unique keys.
    pub open spec fn wf(&self) -> bool {
        self.tools.wf() && self.env_vars.wf()
    }

    /// The empty result.
    pub fn new() -> (r: Validation)
        ensures
            r.wf(),
            r.tools@.len() == 0,
            r.env_vars@.len() == 0,
    {
        Validation { tools: StringMap::new(), env_vars: StringMap::new() }
    }

    /// Takes in `other`: on a shared key its entry wins.
    pub fn combine(&mut self, other: Validation)
        requires
            old(self).wf(),
        ensures
            final(self).wf(),
            final(self).tools@ == merged(old(self).tools@, other.tools@),
            final(self).env_vars@ == merged(old(self).env_vars@, other.env_vars@),
    {
        self.tools.combine(other.tools);
        self.env_vars.combine(other.env_vars);
    }
}

} // verus!

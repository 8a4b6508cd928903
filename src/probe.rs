//! What a probe is asked to run, and what came back from it. Spawning the
//! process is the caller's part; these are plain values on both sides.
use crate::overlay::{Entry, EnvironmentOverlay};
use vstd::prelude::*;

verus! {

/// One run of a candidate executable, solely to check presence, health or version.
pub struct ProbeAttempt {
    /// Executable name or path.
    pub program: String,
    pub args: Vec<String>,
    /// Set on top of the inherited environment.
    pub overlay: EnvironmentOverlay,
}

/// A probe attempt seen as text: program, arguments, overlay entries.
pub struct AttemptView {
    pub program: Seq<char>,
    pub args: Seq<Seq<char>>,
    pub overlay: Seq<Entry>,
}

impl View for ProbeAttempt {
    type V = AttemptView;

    open spec fn view(&self) -> AttemptView {
        AttemptView {
            program: self.program@,
            args: self.args@.map_values(|a: String| a@),
            overlay: self.overlay@,
        }
    }
}

/// What a probe reported.
#[derive(Debug)]
pub enum ProbeOutput {
    /// The executable could not be started at all.
    NotFound,
    /// It started and exited with failure.
    NonZeroExit,
    /// It exited with success; its standard output, where that was valid text.
    Succeeded { stdout: Option<String> },
}

} // verus!

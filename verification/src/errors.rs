//! The engine's two error classes.
//!
//! Recoverable, user-facing failures never appear here: a state reports
//! those through the `DisplayError` outcome, which leaves the stack
//! untouched.  `ProgramError` is the fatal class: it aborts the main loop,
//! because it marks a violated precondition, not a user mistake.

use vstd::prelude::*;

verus! {

/// A fatal, program-level failure.  The driver's policy on receiving one
/// is to abort the loop and exit with failure status.
#[derive(Debug)]
pub enum ProgramError {
    /// A state asked to pop while it was the last remaining element of the
    /// stack.  The root state must never be popped; asking to is a
    /// contract violation, never silently ignored.
    PopOnRootState,
    /// A state failed to write to the render surface's output sink.
    Render(String),
    /// Any other fatal failure inside a state implementation.
    State(String),
}

/// What `ProgramError::message` returns, spelled at the level of
/// character sequences.
pub open spec fn program_error_text(e: ProgramError) -> Seq<char> {
    match e {
        ProgramError::PopOnRootState => "cannot pop the last remaining state"@,
        ProgramError::Render(s) => "write to the render surface failed: "@ + s@,
        ProgramError::State(s) => "state failure: "@ + s@,
    }
}

impl ProgramError {
    /// A human-readable description of the failure.
    pub fn message(&self) -> (r: String)
        ensures
            r@ == program_error_text(*self),
    {
        match self {
            ProgramError::PopOnRootState => String::from_str(
                "cannot pop the last remaining state",
            ),
            ProgramError::Render(s) => {
                let mut m = String::from_str("write to the render surface failed: ");
                m.append(s.as_str());
                m
            },
            ProgramError::State(s) => {
                let mut m = String::from_str("state failure: ");
                m.append(s.as_str());
                m
            },
        }
    }
}

/// The error half of the tree/data-build collaborator's tri-state result.
/// The engine never looks inside it beyond its message: the
/// `from_optional_state` conversion downgrades it to a recoverable
/// `DisplayError`.
#[derive(Clone, Debug)]
pub struct TreeBuildError {
    /// What went wrong, as the build collaborator reported it.
    pub message: String,
}

impl TreeBuildError {
    /// Wraps a build failure report.
    pub fn new(message: String) -> (e: TreeBuildError)
        ensures
            e.message == message,
    {
        TreeBuildError { message }
    }
}

} // verus!

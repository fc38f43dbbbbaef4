//! A launch descriptor: an immutable value fully describing one
//! external-process invocation.
//!
//! A state hands a descriptor to the driver inside the `Launch` outcome;
//! ownership transfers at that point.  The driver passes it on, outside the
//! render loop, to the external-process collaborator, which spawns the
//! program and reports whether the engine should resume or terminate.

use vstd::prelude::*;

verus! {

/// One external-process invocation: program path, arguments, and whether
/// the collaborator should block until the process exits.
#[derive(Clone, Debug)]
pub struct Launchable {
    /// Path or name of the program to run.
    pub exe: String,
    /// Arguments, in order.
    pub args: Vec<String>,
    /// Whether the collaborator must wait for the process to exit before
    /// reporting back.
    pub wait_for_exit: bool,
}

impl Launchable {
    /// Describes running `exe` with `args`, waiting for it to exit.
    pub fn program(exe: String, args: Vec<String>) -> (l: Launchable)
        ensures
            l.exe == exe,
            l.args == args,
            l.wait_for_exit,
    {
        Launchable { exe, args, wait_for_exit: true }
    }
}

} // verus!

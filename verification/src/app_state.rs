//! The state capability interface and the closed set of outcomes a state's
//! command handling can produce.
//!
//! A state is one interactive screen.  Exactly one state — the top of the
//! driver's stack — is active at any time.  Handling a command produces one
//! `AppStateCmdResult`, consumed by the driver in the same loop iteration
//! and never stored.

use vstd::prelude::*;

use crate::command::Command;
use crate::context::AppContext;
use crate::errors::ProgramError;
use crate::errors::TreeBuildError;
use crate::launchable::Launchable;
use crate::quoting::quoted;
use crate::screen::Screen;
use crate::task_sync::TaskLifetime;

verus! {

/// Result of applying a command to a state: the closed set of effects the
/// state may request of the driver.  `S` is the concrete state type the
/// driver's stack holds.
#[derive(Debug)]
pub enum AppStateCmdResult<S> {
    /// The state has decided the program should end; the loop terminates
    /// with success status.
    Quit,
    /// The command had no stack effect; redraw and continue.
    Keep,
    /// The state wants an external process run; the descriptor is handed
    /// to the external-process collaborator outside the render loop.
    Launch(Launchable),
    /// The command failed in a recoverable, user-facing way; the message
    /// is shown over the current state and the stack is not altered.
    DisplayError(String),
    /// Push a new top state, then feed it the carried command before the
    /// loop accepts new input.
    NewState(S, Command),
    /// Drop the top state and replay the same command on the state beneath
    /// it.  Popping the last remaining state is a fatal contract
    /// violation.
    PopStateAndReapply,
    /// Drop the top state, no replay.  Same emptiness guard.
    PopState,
    /// Stack depth unchanged; the active state must recompute and redraw,
    /// optionally discarding cached derived data first.
    RefreshState {
        /// Whether memoized derived data must be discarded before the
        /// recomputation.
        clear_cache: bool,
    },
}

/// The message shown when a command names a verb nobody knows: the
/// offending text, quoted and escaped.
pub open spec fn verb_not_found_text(verb: Seq<char>) -> Seq<char> {
    "verb not found: "@ + quoted(verb)
}

impl<S> AppStateCmdResult<S> {
    /// The error outcome for a command that names an unrecognized verb.
    pub fn verb_not_found(text: &str) -> (r: AppStateCmdResult<S>)
        ensures
            (r matches AppStateCmdResult::DisplayError(m) && m@ == verb_not_found_text(text@)),
    {
        proof {
            reveal_strlit("verb not found: ");
        }
        let mut msg = String::from_str("verb not found: ");
        let q = crate::quoting::quote_text(text);
        msg.append(q.as_str());
        AppStateCmdResult::DisplayError(msg)
    }

    /// Normalizes the tri-state result of the tree/data-build collaborator
    /// into the outcome language, exactly once, at the boundary: a built
    /// state is pushed and fed `cmd`, a declined build keeps everything as
    /// it is, and a build failure is downgraded to a recoverable,
    /// user-facing error.
    pub fn from_optional_state(os: Result<Option<S>, TreeBuildError>, cmd: Command) -> (r:
        AppStateCmdResult<S>)
        ensures
            (match os {
                Ok(Some(s)) => r == AppStateCmdResult::NewState(s, cmd),
                Ok(None) => r is Keep,
                Err(e) => r == AppStateCmdResult::<S>::DisplayError(e.message),
            }),
    {
        match os {
            Ok(Some(s)) => AppStateCmdResult::NewState(s, cmd),
            Ok(None) => AppStateCmdResult::Keep,
            Err(e) => AppStateCmdResult::DisplayError(e.message),
        }
    }
}

impl<S> From<Launchable> for AppStateCmdResult<S> {
    /// Wraps a launch descriptor in the outcome that requests it be run.
    fn from(launchable: Launchable) -> (r: Self)
        ensures
            r == AppStateCmdResult::<S>::Launch(launchable),
    {
        AppStateCmdResult::Launch(launchable)
    }
}

impl<S> vstd::std_specs::convert::FromSpecImpl<Launchable> for AppStateCmdResult<S> {
    open spec fn obeys_from_spec() -> bool {
        true
    }

    open spec fn from_spec(launchable: Launchable) -> Self {
        AppStateCmdResult::Launch(launchable)
    }
}

/// A whole application state, stackable to allow reverting to a previous
/// one.  Every concrete screen implements this capability set; the driver
/// depends only on it.
///
/// No method may block on external input or output beyond the given sink:
/// long work is deferred to a background task tied to a `TaskLifetime`
/// token, and its results are absorbed later through `do_pending_task`.
pub trait AppState: Sized {
    /// Primary entry point: handle one command.  May mutate `cmd` in place
    /// if it partially consumes it, so that a later `PopStateAndReapply`
    /// can pass the leftover input down.
    fn apply(&mut self, cmd: &mut Command, screen: &mut Screen, con: &AppContext) -> Result<
        AppStateCmdResult<Self>,
        ProgramError,
    >;

    /// Pure predicate: whether the verb at `verb_index` of the context's
    /// verb table is currently offerable.  Must not have side effects.
    fn can_execute(&self, verb_index: usize, con: &AppContext) -> bool;

    /// Invoked after a `RefreshState` outcome: recompute the current view
    /// and return a synthetic command (possibly empty) representing "redo
    /// the current view".
    fn refresh(&mut self, screen: &Screen, con: &AppContext) -> Command;

    /// Absorb one increment of background-task progress.  The state must
    /// check that the token it holds matches the still-current token `tl`
    /// it is passed; a result guarded by a stale token is discarded.
    fn do_pending_task(&mut self, screen: &mut Screen, tl: &TaskLifetime);

    /// Pure predicate: whether background work is outstanding.  Used as
    /// the condition for scheduling a `do_pending_task` poll.
    fn has_pending_task(&self) -> bool;

    /// Renders the state into the sink.  Failures are fatal write errors,
    /// not business errors.
    fn display(&mut self, w: &mut Vec<u8>, screen: &Screen, con: &AppContext) -> Result<
        (),
        ProgramError,
    >;

    /// Writes the state's mode flags into the sink.
    fn write_flags(&self, w: &mut Vec<u8>, screen: &mut Screen, con: &AppContext) -> Result<
        (),
        ProgramError,
    >;

    /// Writes the status line for the command being typed into the sink.
    fn write_status(&self, w: &mut Vec<u8>, cmd: &Command, screen: &Screen, con: &AppContext)
        -> Result<(), ProgramError>;
}

} // verus!

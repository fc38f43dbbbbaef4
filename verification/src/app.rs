//! The state-stack driver: owns the ordered stack of states and runs the
//! interaction loop's decision core.
//!
//! One dispatch hands the current command to the top state, receives one
//! outcome, and interprets it: mutate the stack (push, pop), redraw,
//! forward a launch request, show an error, refresh, or quit.  `NewState`
//! and `PopStateAndReapply` are not tail actions: the driver immediately
//! redispatches to the (possibly different) new top before returning
//! control to the input-reading phase, iteratively rather than by
//! recursion, and re-checks the external quit signal between hops so a
//! chain of pops cannot make the program unresponsive to a close request.
//!
//! Reading input, flushing the sink to a real terminal, and actually
//! spawning a launched process are collaborators outside this crate: they
//! hand plain values in and take plain values back.

use vstd::prelude::*;

use crate::app_state::AppState;
use crate::app_state::AppStateCmdResult;
use crate::command::Command;
use crate::context::AppContext;
use crate::errors::ProgramError;
use crate::launchable::Launchable;
use crate::screen::Screen;
use crate::screen::write_text;
use crate::task_sync::next_generation;
use crate::task_sync::token_valid;
use crate::task_sync::TaskLifetime;

verus! {

/// What the driver must do right after handling one outcome.
#[derive(Debug)]
pub enum Step {
    /// Terminate the loop with success status.
    Quit,
    /// The chain ends; redraw and wait for input.
    Redraw,
    /// The chain ends; show the message over the current state.
    ShowError(String),
    /// The chain ends; hand the descriptor to the external-process
    /// collaborator.
    Launch(Launchable),
    /// Redispatch the current command to the (possibly new) top state.
    Redispatch,
    /// Call the active state's refresh path.
    Refresh {
        /// Whether the state's memoized data must be discarded first.
        clear_cache: bool,
    },
}

/// How one full dispatch chain ended, as reported to the loop around the
/// driver.
#[derive(Debug)]
pub enum DispatchEnd {
    /// Read the next command.  When `clear_cache` is set, caches kept
    /// outside the states must be discarded before the next dispatch.
    Continue {
        /// Whether externally kept derived data must be discarded.
        clear_cache: bool,
    },
    /// Terminate with success status.
    Quit,
    /// Run the described external process; resume or terminate as the
    /// external-process collaborator reports.
    Launch(Launchable),
}

/// How many `NewState` / `PopStateAndReapply` hops one dispatch chain may
/// take before the driver declares the states misbehaving.  Re-entrant
/// dispatch is run as an explicit loop precisely to keep the chain bounded;
/// a chain this long means two states keep handing the command back and
/// forth, which is a contract violation, not progress.
pub const MAX_DISPATCH_HOPS: usize = 1024;

/// Whether an outcome asks the driver to pop the top state.
pub open spec fn outcome_pops<S>(outcome: AppStateCmdResult<S>) -> bool {
    outcome is PopState || outcome is PopStateAndReapply
}

/// Whether handling `outcome` on a stack of depth `depth` is a fatal
/// contract violation: popping when one state remains.
pub open spec fn outcome_is_fatal<S>(depth: nat, outcome: AppStateCmdResult<S>) -> bool {
    outcome_pops(outcome) && depth <= 1
}

/// The stack after one outcome is handled (in the non-fatal case).
pub open spec fn outcome_stack<S>(stack: Seq<S>, outcome: AppStateCmdResult<S>) -> Seq<S> {
    match outcome {
        AppStateCmdResult::NewState(s, _) => stack.push(s),
        AppStateCmdResult::PopStateAndReapply => stack.drop_last(),
        AppStateCmdResult::PopState => stack.drop_last(),
        _ => stack,
    }
}

/// The task generation after one outcome is handled: stack mutations
/// invalidate outstanding tokens, everything else — a refresh included —
/// preserves them.
pub open spec fn outcome_generation<S>(g: u64, outcome: AppStateCmdResult<S>) -> u64 {
    if outcome is NewState || outcome_pops(outcome) {
        next_generation(g)
    } else {
        g
    }
}

/// The command carried into the rest of the chain: `NewState` installs the
/// command it carries, every other outcome leaves the current one
/// untouched — in particular `PopStateAndReapply` replays it bit for bit.
pub open spec fn outcome_command<S>(cmd: Command, outcome: AppStateCmdResult<S>) -> Command {
    match outcome {
        AppStateCmdResult::NewState(_, c) => c,
        _ => cmd,
    }
}

/// The driver action each outcome maps to: the transition table.
pub open spec fn step_of<S>(outcome: AppStateCmdResult<S>) -> Step {
    match outcome {
        AppStateCmdResult::Quit => Step::Quit,
        AppStateCmdResult::Keep => Step::Redraw,
        AppStateCmdResult::Launch(d) => Step::Launch(d),
        AppStateCmdResult::DisplayError(m) => Step::ShowError(m),
        AppStateCmdResult::NewState(_, _) => Step::Redispatch,
        AppStateCmdResult::PopStateAndReapply => Step::Redispatch,
        AppStateCmdResult::PopState => Step::Redraw,
        AppStateCmdResult::RefreshState { clear_cache } => (Step::Refresh { clear_cache }),
    }
}

/// The driver: the ordered stack of states (bottom to top, top = active),
/// the externally set quit signal, and the current task generation.
pub struct App<S> {
    /// The stack's backing storage, exclusively owned by the driver.
    /// Non-empty for the entire run.
    pub states: Vec<S>,
    /// Set from outside (a close request); checked between dispatch hops.
    pub quit_requested: bool,
    /// Current task generation; tokens minted at another generation are
    /// stale.
    pub generation: u64,
}

impl<S> App<S> {
    /// The stack is never empty: popping the last remaining element is
    /// only valid as part of quitting, and is refused as fatal.
    pub open spec fn wf(self) -> bool {
        self.states@.len() >= 1
    }

    /// A driver holding the root state alone.  The root state must never
    /// emit `PopState` or `PopStateAndReapply`.
    pub fn new(root: S) -> (app: App<S>)
        ensures
            app.wf(),
            app.states@ =~= seq![root],
            app.quit_requested == false,
            app.generation == 0,
    {
        let mut states: Vec<S> = Vec::new();
        states.push(root);
        App { states, quit_requested: false, generation: 0 }
    }

    /// Current stack depth.
    pub fn depth(&self) -> (n: usize)
        ensures
            n == self.states@.len(),
    {
        self.states.len()
    }

    /// The state at position `i`, bottom = 0.
    pub fn state_at(&self, i: usize) -> (s: &S)
        requires
            i < self.states@.len(),
        ensures
            *s == self.states@[i as int],
    {
        &self.states[i]
    }

    /// Records an external close request; the driver honors it between
    /// dispatch hops and before the next dispatch.
    pub fn request_quit(&mut self)
        ensures
            final(self).quit_requested,
            final(self).states@ == old(self).states@,
            final(self).generation == old(self).generation,
    {
        self.quit_requested = true;
    }

    /// Whether an external close request is pending.
    pub fn is_quit_requested(&self) -> (r: bool)
        ensures
            r == self.quit_requested,
    {
        self.quit_requested
    }

    /// A token tied to the current generation, for a state about to start
    /// background work.
    pub fn current_token(&self) -> (t: TaskLifetime)
        ensures
            t.generation == self.generation,
            token_valid(self.generation, t),
    {
        TaskLifetime::new(self.generation)
    }

    /// Whether `t` still guards relevant work.
    pub fn is_token_valid(&self, t: &TaskLifetime) -> (r: bool)
        ensures
            r == token_valid(self.generation, *t),
    {
        t.is_valid_for(self.generation)
    }

    /// Invalidates every outstanding token: called when a fresh user
    /// command arrives before the previous background work completed.
    /// Stale results are then dropped silently — expected backpressure,
    /// not an error.
    pub fn invalidate_tasks(&mut self)
        ensures
            final(self).generation == next_generation(old(self).generation),
            final(self).states@ == old(self).states@,
            final(self).quit_requested == old(self).quit_requested,
            forall|t: TaskLifetime|
                token_valid(old(self).generation, t) ==> !token_valid(
                    final(self).generation,
                    t,
                ),
    {
        self.bump_generation();
    }

    /// Advances the task generation by one step.
    fn bump_generation(&mut self)
        ensures
            final(self).generation == next_generation(old(self).generation),
            final(self).states@ == old(self).states@,
            final(self).quit_requested == old(self).quit_requested,
    {
        self.generation = if self.generation == u64::MAX {
            0
        } else {
            self.generation + 1
        };
    }

    /// Interprets one outcome: the transition table of the driver.
    ///
    /// Exactly the pop outcomes on a stack of depth 1 fail, with
    /// `PopOnRootState` and nothing changed; every other case mutates the
    /// stack, the generation and the current command precisely as
    /// `outcome_stack`, `outcome_generation` and `outcome_command` say,
    /// and returns the step `step_of` maps the outcome to.
    pub fn handle_outcome(&mut self, outcome: AppStateCmdResult<S>, cmd: &mut Command) -> (r:
        Result<Step, ProgramError>)
        requires
            old(self).wf(),
        ensures
            final(self).wf(),
            final(self).quit_requested == old(self).quit_requested,
            (r is Err) == outcome_is_fatal(old(self).states@.len(), outcome),
            r matches Err(e) ==> e is PopOnRootState && final(self).states@ == old(
                self,
            ).states@ && final(self).generation == old(self).generation && *final(cmd) == *old(
                cmd,
            ),
            r matches Ok(step) ==> step == step_of(outcome) && final(self).states@
                == outcome_stack(old(self).states@, outcome) && final(self).generation
                == outcome_generation(old(self).generation, outcome) && *final(cmd)
                == outcome_command(*old(cmd), outcome),
    {
        match outcome {
            AppStateCmdResult::Quit => Ok(Step::Quit),
            AppStateCmdResult::Keep => Ok(Step::Redraw),
            AppStateCmdResult::Launch(d) => Ok(Step::Launch(d)),
            AppStateCmdResult::DisplayError(m) => Ok(Step::ShowError(m)),
            AppStateCmdResult::NewState(s, c) => {
                self.states.push(s);
                *cmd = c;
                self.bump_generation();
                Ok(Step::Redispatch)
            },
            AppStateCmdResult::PopStateAndReapply => {
                if self.states.len() <= 1 {
                    Err(ProgramError::PopOnRootState)
                } else {
                    let _ = self.states.pop();
                    proof {
                        assert(self.states@ =~= old(self).states@.drop_last());
                    }
                    self.bump_generation();
                    Ok(Step::Redispatch)
                }
            },
            AppStateCmdResult::PopState => {
                if self.states.len() <= 1 {
                    Err(ProgramError::PopOnRootState)
                } else {
                    let _ = self.states.pop();
                    proof {
                        assert(self.states@ =~= old(self).states@.drop_last());
                    }
                    self.bump_generation();
                    Ok(Step::Redraw)
                }
            },
            AppStateCmdResult::RefreshState { clear_cache } => (Ok(Step::Refresh { clear_cache })),
        }
    }

}

impl<S: AppState> App<S> {
    /// Renders the active state into the sink: the view itself, then the
    /// mode flags, then the status line for the command being typed.  A
    /// failure is a fatal write error.  Only the top state may change;
    /// everything beneath it, the generation and the quit signal stay as
    /// they were.
    pub fn redraw(&mut self, w: &mut Vec<u8>, screen: &mut Screen, cmd: &Command, con: &AppContext)
        -> (r: Result<(), ProgramError>)
        requires
            old(self).wf(),
        ensures
            final(self).wf(),
            final(self).states@.len() == old(self).states@.len(),
            final(self).generation == old(self).generation,
            final(self).quit_requested == old(self).quit_requested,
            forall|i: int|
                0 <= i < old(self).states@.len() - 1 ==> final(self).states@[i] == old(
                    self,
                ).states@[i],
    {
        let idx = self.states.len() - 1;
        let top = &mut self.states[idx];
        match top.display(w, screen, con) {
            Ok(()) => {},
            Err(e) => {
                return Err(e);
            },
        }
        match self.states[idx].write_flags(w, screen, con) {
            Ok(()) => {},
            Err(e) => {
                return Err(e);
            },
        }
        match self.states[idx].write_status(w, cmd, screen, con) {
            Ok(()) => {},
            Err(e) => {
                return Err(e);
            },
        }
        Ok(())
    }

    /// Polls the active state for one increment of background-task
    /// progress, handing it the still-current token; called once per loop
    /// iteration when idle.  Returns whether the state reported work
    /// outstanding.  The generation is not touched: polling never
    /// invalidates anything.
    pub fn poll_pending_task(&mut self, screen: &mut Screen) -> (polled: bool)
        requires
            old(self).wf(),
        ensures
            final(self).wf(),
            final(self).states@.len() == old(self).states@.len(),
            final(self).generation == old(self).generation,
            final(self).quit_requested == old(self).quit_requested,
            forall|i: int|
                0 <= i < old(self).states@.len() - 1 ==> final(self).states@[i] == old(
                    self,
                ).states@[i],
            !polled ==> final(self).states@ == old(self).states@,
    {
        let idx = self.states.len() - 1;
        let pending = self.states[idx].has_pending_task();
        if pending {
            let token = self.current_token();
            let top = &mut self.states[idx];
            top.do_pending_task(screen, &token);
        }
        pending
    }

    /// Runs one full dispatch chain for `cmd`: applies it to the active
    /// state (or short-circuits to a `verb not found` error when the verb
    /// it invokes is unknown or not currently executable — deny before
    /// apply), interprets the outcome, and keeps redispatching through
    /// `NewState` and `PopStateAndReapply` hops until the chain ends.  The
    /// external quit signal is honored before the first hop and re-checked
    /// between hops.
    ///
    /// `Ok` reports how the loop goes on; `Err` is fatal and aborts it.
    pub fn dispatch_command(
        &mut self,
        cmd: &mut Command,
        w: &mut Vec<u8>,
        screen: &mut Screen,
        con: &AppContext,
    ) -> (r: Result<DispatchEnd, ProgramError>)
        requires
            old(self).wf(),
        ensures
            final(self).wf(),
            final(self).quit_requested == old(self).quit_requested,
            old(self).quit_requested ==> (r matches Ok(end) && end is Quit && *final(self) == *old(
                self,
            ) && *final(cmd) == *old(cmd)),
    {
        if self.is_quit_requested() {
            return Ok(DispatchEnd::Quit);
        }
        let mut hops_left: usize = MAX_DISPATCH_HOPS;
        loop
            invariant
                self.wf(),
                self.quit_requested == old(self).quit_requested,
                !old(self).quit_requested,
            decreases hops_left,
        {
            let top_idx = self.states.len() - 1;
            let mut gated: Option<AppStateCmdResult<S>> = None;
            match &cmd.invocation {
                Some(inv) => {
                    match inv.verb_index {
                        Some(vi) => {
                            if !self.states[top_idx].can_execute(vi, con) {
                                gated = Some(AppStateCmdResult::verb_not_found(inv.name.as_str()));
                            }
                        },
                        None => {
                            gated = Some(AppStateCmdResult::verb_not_found(inv.name.as_str()));
                        },
                    }
                },
                None => {},
            }
            let outcome_result: Result<AppStateCmdResult<S>, ProgramError> = match gated {
                Some(o) => Ok(o),
                None => {
                    let top = &mut self.states[top_idx];
                    top.apply(cmd, screen, con)
                },
            };
            let outcome = match outcome_result {
                Ok(o) => o,
                Err(e) => {
                    return Err(e);
                },
            };
            let step = match self.handle_outcome(outcome, cmd) {
                Ok(s) => s,
                Err(e) => {
                    return Err(e);
                },
            };
            match step {
                Step::Quit => {
                    return Ok(DispatchEnd::Quit);
                },
                Step::Redraw => {
                    match self.redraw(w, screen, cmd, con) {
                        Ok(()) => {},
                        Err(e) => {
                            return Err(e);
                        },
                    }
                    return Ok(DispatchEnd::Continue { clear_cache: false });
                },
                Step::ShowError(msg) => {
                    match self.redraw(w, screen, cmd, con) {
                        Ok(()) => {},
                        Err(e) => {
                            return Err(e);
                        },
                    }
                    write_text(w, msg.as_str());
                    return Ok(DispatchEnd::Continue { clear_cache: false });
                },
                Step::Launch(d) => {
                    return Ok(DispatchEnd::Launch(d));
                },
                Step::Redispatch => {
                    if self.is_quit_requested() {
                        return Ok(DispatchEnd::Quit);
                    }
                    if hops_left == 0 {
                        return Err(
                            ProgramError::State(
                                String::from_str("dispatch chain did not settle"),
                            ),
                        );
                    }
                    hops_left = hops_left - 1;
                },
                Step::Refresh { clear_cache } => {
                    let idx = self.states.len() - 1;
                    let top = &mut self.states[idx];
                    let synthetic = top.refresh(screen, con);
                    *cmd = synthetic;
                    match self.redraw(w, screen, cmd, con) {
                        Ok(()) => {},
                        Err(e) => {
                            return Err(e);
                        },
                    }
                    return Ok(DispatchEnd::Continue { clear_cache });
                },
            }
        }
    }
}

} // verus!

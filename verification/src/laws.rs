//! The engine's guarantees, stated once as theorems over the driver's
//! transition table (`outcome_stack`, `outcome_generation`,
//! `outcome_command`, `step_of`) — the same functions the contracts of
//! `App::handle_outcome` are written with.

use vstd::prelude::*;

use crate::app::outcome_command;
use crate::app::outcome_generation;
use crate::app::outcome_is_fatal;
use crate::app::outcome_stack;
use crate::app::step_of;
use crate::app::Step;
use crate::app_state::AppStateCmdResult;
use crate::command::Command;
use crate::task_sync::token_valid;
use crate::task_sync::TaskLifetime;

verus! {

/// Handling a `Keep` outcome — once or any number of times in a row —
/// never changes the stack's depth nor the identity of any element, never
/// fails, and invalidates no task token; the chain ends in a redraw.
pub proof fn lemma_keep_changes_nothing<S>(stack: Seq<S>, g: u64, cmd: Command)
    requires
        stack.len() >= 1,
    ensures
        !outcome_is_fatal(stack.len(), AppStateCmdResult::<S>::Keep),
        outcome_stack(stack, AppStateCmdResult::<S>::Keep) == stack,
        outcome_stack(
            outcome_stack(stack, AppStateCmdResult::<S>::Keep),
            AppStateCmdResult::<S>::Keep,
        ) == stack,
        outcome_generation(g, AppStateCmdResult::<S>::Keep) == g,
        outcome_command(cmd, AppStateCmdResult::<S>::Keep) == cmd,
        step_of(AppStateCmdResult::<S>::Keep) == Step::Redraw,
{
}

/// `NewState(s2, c2)` always makes `s2` the new top, above an otherwise
/// untouched stack, and continues the chain (`Redispatch`) with `c2` as the
/// command — so `c2` is dispatched to `s2` before the loop accepts new
/// input, and that nested dispatch goes through the same transition table
/// as any other.
pub proof fn lemma_new_state_pushes<S>(stack: Seq<S>, g: u64, cmd: Command, s2: S, c2: Command)
    requires
        stack.len() >= 1,
    ensures
        !outcome_is_fatal(stack.len(), AppStateCmdResult::NewState(s2, c2)),
        outcome_stack(stack, AppStateCmdResult::NewState(s2, c2)).len() == stack.len() + 1,
        outcome_stack(stack, AppStateCmdResult::NewState(s2, c2)).last() == s2,
        outcome_stack(stack, AppStateCmdResult::NewState(s2, c2)).drop_last() == stack,
        outcome_command(cmd, AppStateCmdResult::NewState(s2, c2)) == c2,
        step_of(AppStateCmdResult::NewState(s2, c2)) == Step::Redispatch,
{
    assert(outcome_stack(stack, AppStateCmdResult::NewState(s2, c2)).drop_last() =~= stack);
}

/// `PopStateAndReapply` on a stack of depth at least 2 removes exactly the
/// top element — every element beneath keeps its place and identity — and
/// redispatches the original command, bit for bit, to the newly exposed
/// top.
pub proof fn lemma_pop_reapply<S>(stack: Seq<S>, cmd: Command)
    requires
        stack.len() >= 2,
    ensures
        !outcome_is_fatal(stack.len(), AppStateCmdResult::<S>::PopStateAndReapply),
        outcome_stack(stack, AppStateCmdResult::<S>::PopStateAndReapply).len() == stack.len() - 1,
        forall|i: int|
            0 <= i < stack.len() - 1 ==> outcome_stack(
                stack,
                AppStateCmdResult::<S>::PopStateAndReapply,
            )[i] == stack[i],
        outcome_command(cmd, AppStateCmdResult::<S>::PopStateAndReapply) == cmd,
        step_of(AppStateCmdResult::<S>::PopStateAndReapply) == Step::Redispatch,
{
}

/// Popping — with or without replay — when exactly one state remains is a
/// fatal contract violation, and nothing else ever is: `handle_outcome`
/// fails (with `PopOnRootState`, changing nothing) exactly on these two
/// outcomes at depth 1.
pub proof fn lemma_pop_on_root_is_fatal<S>(stack: Seq<S>, outcome: AppStateCmdResult<S>)
    requires
        stack.len() == 1,
    ensures
        outcome_is_fatal(stack.len(), AppStateCmdResult::<S>::PopState),
        outcome_is_fatal(stack.len(), AppStateCmdResult::<S>::PopStateAndReapply),
        outcome_is_fatal(stack.len(), outcome) <==> (outcome is PopState
            || outcome is PopStateAndReapply),
{
}

/// A refresh — cache-clearing or not — invalidates no task token: it
/// affects renderable data, not in-flight task bookkeeping.  A token valid
/// before a `RefreshState` outcome is handled is exactly as valid after.
pub proof fn lemma_refresh_preserves_tokens<S>(
    stack: Seq<S>,
    g: u64,
    t: TaskLifetime,
    clear_cache: bool,
)
    ensures
        outcome_generation(g, AppStateCmdResult::<S>::RefreshState { clear_cache }) == g,
        token_valid(
            outcome_generation(g, AppStateCmdResult::<S>::RefreshState { clear_cache }),
            t,
        ) == token_valid(g, t),
        outcome_stack(stack, AppStateCmdResult::<S>::RefreshState { clear_cache }) == stack,
{
}

/// Exactly the outcomes that mutate the stack — `NewState` and the two
/// pops — invalidate outstanding task tokens; every other outcome (quit,
/// keep, launch, error display, refresh) leaves both the stack and the
/// generation exactly as they were.
pub proof fn lemma_only_stack_mutations_invalidate<S>(
    stack: Seq<S>,
    g: u64,
    outcome: AppStateCmdResult<S>,
)
    ensures
        !(outcome is NewState || outcome is PopState || outcome is PopStateAndReapply) ==> (
        outcome_stack(stack, outcome) == stack && outcome_generation(g, outcome) == g),
        (outcome is NewState || outcome is PopState || outcome is PopStateAndReapply)
            ==> outcome_generation(g, outcome) == crate::task_sync::next_generation(g),
{
}

/// A launch request leaves the stack and every outstanding task token
/// untouched: when the external-process collaborator reports "resume", the
/// loop goes on with the same state on top, and a token valid before the
/// launch is still valid — the launch alone invalidates nothing.
pub proof fn lemma_launch_preserves_state<S>(stack: Seq<S>, g: u64, cmd: Command, d: crate::launchable::Launchable)
    requires
        stack.len() >= 1,
    ensures
        !outcome_is_fatal(stack.len(), AppStateCmdResult::<S>::Launch(d)),
        outcome_stack(stack, AppStateCmdResult::<S>::Launch(d)) == stack,
        outcome_generation(g, AppStateCmdResult::<S>::Launch(d)) == g,
        outcome_command(cmd, AppStateCmdResult::<S>::Launch(d)) == cmd,
        step_of(AppStateCmdResult::<S>::Launch(d)) == Step::Launch(d),
        forall|t: TaskLifetime|
            token_valid(g, t) == token_valid(
                outcome_generation(g, AppStateCmdResult::<S>::Launch(d)),
                t,
            ),
{
}

} // verus!

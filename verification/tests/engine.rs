//! Driver scenarios: full dispatch chains over a scriptable probe state.

use state_stack::app::MAX_DISPATCH_HOPS;
use state_stack::App;
use state_stack::AppContext;
use state_stack::AppState;
use state_stack::AppStateCmdResult;
use state_stack::Command;
use state_stack::DispatchEnd;
use state_stack::Launchable;
use state_stack::ProgramError;
use state_stack::Screen;
use state_stack::TaskLifetime;

/// A screen stand-in whose behavior is scripted: each `apply` call pops the
/// next outcome from the script (or keeps, once the script is exhausted)
/// and records the raw text of the command it was given.
struct Probe {
    id: u32,
    script: Vec<AppStateCmdResult<Probe>>,
    applied: Vec<String>,
    allow_verbs: bool,
    pending: bool,
    held_token: Option<TaskLifetime>,
    task_applied: bool,
    displays: u32,
    refreshes: u32,
}

impl Probe {
    fn new(id: u32) -> Probe {
        Probe {
            id,
            script: Vec::new(),
            applied: Vec::new(),
            allow_verbs: true,
            pending: false,
            held_token: None,
            task_applied: false,
            displays: 0,
            refreshes: 0,
        }
    }

    fn scripted(id: u32, script: Vec<AppStateCmdResult<Probe>>) -> Probe {
        let mut p = Probe::new(id);
        p.script = script;
        p
    }
}

impl AppState for Probe {
    fn apply(
        &mut self,
        cmd: &mut Command,
        _screen: &mut Screen,
        _con: &AppContext,
    ) -> Result<AppStateCmdResult<Probe>, ProgramError> {
        self.applied.push(cmd.raw.clone());
        if self.script.is_empty() {
            Ok(AppStateCmdResult::Keep)
        } else {
            Ok(self.script.remove(0))
        }
    }

    fn can_execute(&self, _verb_index: usize, _con: &AppContext) -> bool {
        self.allow_verbs
    }

    fn refresh(&mut self, _screen: &Screen, _con: &AppContext) -> Command {
        self.refreshes += 1;
        Command::from_raw(String::from("refreshed"))
    }

    fn do_pending_task(&mut self, _screen: &mut Screen, tl: &TaskLifetime) {
        if let Some(held) = &self.held_token {
            if held.same_generation(tl) {
                self.task_applied = true;
            }
        }
        self.pending = false;
    }

    fn has_pending_task(&self) -> bool {
        self.pending
    }

    fn display(
        &mut self,
        w: &mut Vec<u8>,
        _screen: &Screen,
        _con: &AppContext,
    ) -> Result<(), ProgramError> {
        self.displays += 1;
        w.push(b'D');
        w.push(self.id as u8);
        Ok(())
    }

    fn write_flags(
        &self,
        w: &mut Vec<u8>,
        _screen: &mut Screen,
        _con: &AppContext,
    ) -> Result<(), ProgramError> {
        w.push(b'F');
        Ok(())
    }

    fn write_status(
        &self,
        w: &mut Vec<u8>,
        _cmd: &Command,
        _screen: &Screen,
        _con: &AppContext,
    ) -> Result<(), ProgramError> {
        w.push(b'S');
        Ok(())
    }
}

fn context() -> AppContext {
    AppContext::new(vec![String::from("edit"), String::from("quit")])
}

fn plain(raw: &str) -> Command {
    Command::from_raw(String::from(raw))
}

#[test]
fn quit_scenario_exits_with_stack_untouched() {
    let root = Probe::scripted(1, vec![AppStateCmdResult::Quit]);
    let mut app = App::new(root);
    let mut cmd = plain("q");
    let mut w: Vec<u8> = Vec::new();
    let mut screen = Screen::new(80, 24);
    let r = app.dispatch_command(&mut cmd, &mut w, &mut screen, &context());
    assert!(matches!(r, Ok(DispatchEnd::Quit)));
    assert_eq!(app.depth(), 1);
    assert_eq!(app.state_at(0).id, 1);
    assert_eq!(app.state_at(0).applied, vec![String::from("q")]);
}

#[test]
fn keep_twice_changes_no_depth_and_no_identity() {
    let root = Probe::scripted(1, vec![AppStateCmdResult::Keep, AppStateCmdResult::Keep]);
    let mut app = App::new(root);
    let mut w: Vec<u8> = Vec::new();
    let mut screen = Screen::new(80, 24);
    for _ in 0..2 {
        let mut cmd = plain("noop");
        let r = app.dispatch_command(&mut cmd, &mut w, &mut screen, &context());
        assert!(matches!(r, Ok(DispatchEnd::Continue { clear_cache: false })));
        assert_eq!(app.depth(), 1);
        assert_eq!(app.state_at(0).id, 1);
    }
    assert_eq!(app.state_at(0).applied.len(), 2);
}

#[test]
fn new_state_becomes_top_and_gets_the_carried_command() {
    let inner = Probe::scripted(2, vec![AppStateCmdResult::Keep]);
    let carried = plain("carried input");
    let root = Probe::scripted(1, vec![AppStateCmdResult::NewState(inner, carried)]);
    let mut app = App::new(root);
    let mut cmd = plain("open");
    let mut w: Vec<u8> = Vec::new();
    let mut screen = Screen::new(80, 24);
    let r = app.dispatch_command(&mut cmd, &mut w, &mut screen, &context());
    assert!(matches!(r, Ok(DispatchEnd::Continue { clear_cache: false })));
    assert_eq!(app.depth(), 2);
    assert_eq!(app.state_at(1).id, 2);
    assert_eq!(app.state_at(0).id, 1);
    // The carried command was dispatched to the new top before the chain
    // ended, and it replaced the command in flight.
    assert_eq!(app.state_at(1).applied, vec![String::from("carried input")]);
    assert_eq!(cmd.raw, "carried input");
}

#[test]
fn pop_and_reapply_redispatches_the_same_command_bit_for_bit() {
    let popper = Probe::scripted(2, vec![AppStateCmdResult::PopStateAndReapply]);
    let carried = plain("undo me");
    let root = Probe::scripted(
        1,
        vec![AppStateCmdResult::NewState(popper, carried), AppStateCmdResult::Keep],
    );
    let mut app = App::new(root);
    let mut cmd = plain("start");
    let mut w: Vec<u8> = Vec::new();
    let mut screen = Screen::new(80, 24);
    let r = app.dispatch_command(&mut cmd, &mut w, &mut screen, &context());
    assert!(matches!(r, Ok(DispatchEnd::Continue { clear_cache: false })));
    // The popper removed exactly itself; the root is alone again.
    assert_eq!(app.depth(), 1);
    assert_eq!(app.state_at(0).id, 1);
    // The root saw the original command, then — after the pop — exactly the
    // command that had been carried to the popper, unchanged.
    assert_eq!(
        app.state_at(0).applied,
        vec![String::from("start"), String::from("undo me")]
    );
}

#[test]
fn pop_on_a_stack_of_one_is_fatal() {
    let root = Probe::scripted(1, vec![AppStateCmdResult::PopState]);
    let mut app = App::new(root);
    let mut cmd = plain("x");
    let mut w: Vec<u8> = Vec::new();
    let mut screen = Screen::new(80, 24);
    let r = app.dispatch_command(&mut cmd, &mut w, &mut screen, &context());
    assert!(matches!(r, Err(ProgramError::PopOnRootState)));
    assert_eq!(app.depth(), 1);
}

#[test]
fn pop_and_reapply_on_a_stack_of_one_is_fatal() {
    let root = Probe::scripted(1, vec![AppStateCmdResult::PopStateAndReapply]);
    let mut app = App::new(root);
    let mut cmd = plain("x");
    let mut w: Vec<u8> = Vec::new();
    let mut screen = Screen::new(80, 24);
    let r = app.dispatch_command(&mut cmd, &mut w, &mut screen, &context());
    assert!(matches!(r, Err(ProgramError::PopOnRootState)));
    assert_eq!(app.depth(), 1);
}

#[test]
fn unknown_verb_is_denied_before_apply() {
    let root = Probe::new(1);
    let mut app = App::new(root);
    let mut cmd = Command::with_invocation(String::from(":xyz"), String::from("xyz"), None);
    let mut w: Vec<u8> = Vec::new();
    let mut screen = Screen::new(80, 24);
    let r = app.dispatch_command(&mut cmd, &mut w, &mut screen, &context());
    assert!(matches!(r, Ok(DispatchEnd::Continue { clear_cache: false })));
    // apply was never called, the stack is unchanged, and the message was
    // written over the redrawn state with its literal formatting.
    assert_eq!(app.state_at(0).applied.len(), 0);
    assert_eq!(app.depth(), 1);
    let shown = String::from_utf8(w).unwrap();
    assert!(shown.ends_with("verb not found: \"xyz\""));
}

#[test]
fn non_executable_verb_is_denied_before_apply() {
    let mut root = Probe::new(1);
    root.allow_verbs = false;
    let mut app = App::new(root);
    let mut cmd = Command::with_invocation(String::from(":edit"), String::from("edit"), Some(0));
    let mut w: Vec<u8> = Vec::new();
    let mut screen = Screen::new(80, 24);
    let r = app.dispatch_command(&mut cmd, &mut w, &mut screen, &context());
    assert!(matches!(r, Ok(DispatchEnd::Continue { clear_cache: false })));
    assert_eq!(app.state_at(0).applied.len(), 0);
    let shown = String::from_utf8(w).unwrap();
    assert!(shown.ends_with("verb not found: \"edit\""));
}

#[test]
fn keep_for_a_declined_build_still_redraws() {
    // A build collaborator returning "no match" is normalized to Keep by
    // from_optional_state; the driver redraws and the stack is unchanged.
    let outcome =
        AppStateCmdResult::from_optional_state(Ok(None), plain("nav"));
    let root = Probe::scripted(1, vec![outcome]);
    let mut app = App::new(root);
    let mut cmd = plain("nav");
    let mut w: Vec<u8> = Vec::new();
    let mut screen = Screen::new(80, 24);
    let r = app.dispatch_command(&mut cmd, &mut w, &mut screen, &context());
    assert!(matches!(r, Ok(DispatchEnd::Continue { clear_cache: false })));
    assert_eq!(app.depth(), 1);
    assert_eq!(app.state_at(0).id, 1);
    // Redraw happened: the display marker for state 1 is in the sink.
    assert_eq!(w, vec![b'D', 1u8, b'F', b'S']);
}

#[test]
fn launch_hands_the_descriptor_out_and_preserves_tokens() {
    let descriptor = Launchable::program(
        String::from("/usr/bin/editor"),
        vec![String::from("notes.txt")],
    );
    let root = Probe::scripted(1, vec![AppStateCmdResult::Launch(descriptor)]);
    let mut app = App::new(root);
    let token = app.current_token();
    let mut cmd = plain("edit");
    let mut w: Vec<u8> = Vec::new();
    let mut screen = Screen::new(80, 24);
    let r = app.dispatch_command(&mut cmd, &mut w, &mut screen, &context());
    match r {
        Ok(DispatchEnd::Launch(d)) => {
            assert_eq!(d.exe, "/usr/bin/editor");
            assert_eq!(d.args, vec![String::from("notes.txt")]);
            assert!(d.wait_for_exit);
        }
        other => panic!("expected a launch, got {:?}", other),
    }
    // The collaborator reports "resume": the loop continues with the same
    // state on top and the token still valid, since nothing mutated the
    // stack.
    assert_eq!(app.depth(), 1);
    assert_eq!(app.state_at(0).id, 1);
    assert!(app.is_token_valid(&token));
    let mut next = plain("again");
    let r2 = app.dispatch_command(&mut next, &mut w, &mut screen, &context());
    assert!(matches!(r2, Ok(DispatchEnd::Continue { clear_cache: false })));
}

#[test]
fn refresh_with_cache_clearing_keeps_in_flight_tasks_valid() {
    // The state began background work guarded by token T1 before the
    // refresh arrives.
    let mut root = Probe::scripted(1, vec![AppStateCmdResult::RefreshState { clear_cache: true }]);
    root.pending = true;
    let mut app = App::new(root);
    let t1 = app.current_token();
    app.states[0].held_token = Some(t1);
    let mut cmd = plain("resize");
    let mut w: Vec<u8> = Vec::new();
    let mut screen = Screen::new(80, 24);
    let r = app.dispatch_command(&mut cmd, &mut w, &mut screen, &context());
    assert!(matches!(r, Ok(DispatchEnd::Continue { clear_cache: true })));
    // Refresh alone invalidated nothing: T1 is still the current token.
    assert!(app.is_token_valid(&t1));
    // The refresh path ran and installed the synthetic command.
    assert_eq!(app.state_at(0).refreshes, 1);
    assert_eq!(cmd.raw, "refreshed");
    // When the task's result arrives, it is accepted: the token still
    // matches.
    let polled = app.poll_pending_task(&mut screen);
    assert!(polled);
    assert!(app.state_at(0).task_applied);
}

#[test]
fn stack_mutation_invalidates_outstanding_tokens() {
    let inner = Probe::scripted(2, vec![AppStateCmdResult::Keep]);
    let mut root = Probe::scripted(1, vec![AppStateCmdResult::NewState(inner, plain("go"))]);
    root.pending = true;
    let mut app = App::new(root);
    let t1 = app.current_token();
    let mut cmd = plain("open");
    let mut w: Vec<u8> = Vec::new();
    let mut screen = Screen::new(80, 24);
    let r = app.dispatch_command(&mut cmd, &mut w, &mut screen, &context());
    assert!(matches!(r, Ok(DispatchEnd::Continue { clear_cache: false })));
    // Pushing a new state bumped the generation: T1 is stale.
    assert!(!app.is_token_valid(&t1));
}

#[test]
fn quit_request_short_circuits_dispatch() {
    let root = Probe::scripted(1, vec![AppStateCmdResult::Keep]);
    let mut app = App::new(root);
    app.request_quit();
    let mut cmd = plain("typed");
    let mut w: Vec<u8> = Vec::new();
    let mut screen = Screen::new(80, 24);
    let r = app.dispatch_command(&mut cmd, &mut w, &mut screen, &context());
    assert!(matches!(r, Ok(DispatchEnd::Quit)));
    // Nothing was applied, shown, or changed.
    assert_eq!(app.state_at(0).applied.len(), 0);
    assert!(w.is_empty());
}

#[test]
fn an_unsettled_chain_is_refused_after_the_hop_budget() {
    // Two states hand the command back and forth forever: the root keeps
    // pushing a popper, the popper keeps popping itself with a replay.
    let mut script: Vec<AppStateCmdResult<Probe>> = Vec::new();
    for _ in 0..MAX_DISPATCH_HOPS {
        let popper = Probe::scripted(2, vec![AppStateCmdResult::PopStateAndReapply]);
        script.push(AppStateCmdResult::NewState(popper, plain("ping")));
    }
    let root = Probe::scripted(1, script);
    let mut app = App::new(root);
    let mut cmd = plain("start");
    let mut w: Vec<u8> = Vec::new();
    let mut screen = Screen::new(80, 24);
    let r = app.dispatch_command(&mut cmd, &mut w, &mut screen, &context());
    match r {
        Err(ProgramError::State(msg)) => {
            assert_eq!(msg, "dispatch chain did not settle");
        }
        other => panic!("expected the hop budget to trip, got {:?}", other),
    }
}

#[test]
fn poll_without_pending_work_does_nothing() {
    let root = Probe::new(1);
    let mut app = App::new(root);
    let mut screen = Screen::new(80, 24);
    let polled = app.poll_pending_task(&mut screen);
    assert!(!polled);
    assert!(!app.state_at(0).task_applied);
}

#[test]
fn stale_task_results_are_discarded_silently() {
    let mut root = Probe::new(1);
    root.pending = true;
    let mut app = App::new(root);
    // The state holds a token from before the user's next command.
    let stale = app.current_token();
    app.states[0].held_token = Some(stale);
    app.invalidate_tasks();
    // Hand the held (now stale) token to the state, then poll: the result
    // must be dropped, not applied.
    assert!(!app.is_token_valid(&stale));
    let mut screen = Screen::new(80, 24);
    let polled = app.poll_pending_task(&mut screen);
    assert!(polled);
    assert!(!app.state_at(0).task_applied);
}

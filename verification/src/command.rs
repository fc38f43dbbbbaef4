//! One user-issued action, as handed to the engine by the command-parsing
//! collaborator.
//!
//! A command is owned by the driver for the duration of one dispatch.  The
//! state it is given to may mutate it in place (for instance to consume part
//! of its payload) before it is handed onward to a newly revealed state.

use vstd::prelude::*;

verus! {

/// The verb part of a command, as the parsing collaborator resolved it:
/// the text the user typed, and the index of the matching verb in the
/// shared context's verb table, if any matched.
#[derive(Clone, Debug)]
pub struct VerbInvocation {
    /// The verb name as typed.
    pub name: String,
    /// Index of the verb in the configured verb table; `None` when the
    /// name matched no known verb.
    pub verb_index: Option<usize>,
}

/// One user-issued action: a raw payload still to be (re)parsed by the
/// state that receives it, plus the verb the parser resolved, if any.
#[derive(Clone, Debug)]
pub struct Command {
    /// Raw input remaining; a revealed state may re-parse it.
    pub raw: String,
    /// The verb this command invokes, if it invokes one.
    pub invocation: Option<VerbInvocation>,
}

impl Command {
    /// The empty, synthetic command: no payload, no verb.
    pub fn empty() -> (c: Command)
        ensures
            c.raw@ == Seq::<char>::empty(),
            c.invocation is None,
    {
        Command { raw: String::new(), invocation: None }
    }

    /// A command that carries only a raw payload and invokes no verb.
    pub fn from_raw(raw: String) -> (c: Command)
        ensures
            c.raw == raw,
            c.invocation is None,
    {
        Command { raw, invocation: None }
    }

    /// A command that invokes a verb.
    pub fn with_invocation(raw: String, name: String, verb_index: Option<usize>) -> (c: Command)
        ensures
            c.raw == raw,
            (c.invocation matches Some(inv) && inv.name == name && inv.verb_index == verb_index),
    {
        Command { raw, invocation: Some(VerbInvocation { name, verb_index }) }
    }
}

} // verus!

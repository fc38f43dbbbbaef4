//! The shared context: read-only, process-wide configuration consulted by
//! every state and by the driver.  It is never mutated during a dispatch
//! cycle; its lifetime is the lifetime of the process.

use vstd::prelude::*;

verus! {

/// Process-wide configuration.  States receive it by shared reference for
/// the duration of one call only.
#[derive(Clone, Debug)]
pub struct AppContext {
    /// The configured verb table: the name of each verb a command may
    /// invoke, indexed by the verb index a `VerbInvocation` carries.
    pub verbs: Vec<String>,
}

impl AppContext {
    /// A context with the given verb table.
    pub fn new(verbs: Vec<String>) -> (c: AppContext)
        ensures
            c.verbs == verbs,
    {
        AppContext { verbs }
    }
}

} // verus!

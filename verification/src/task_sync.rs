//! Task lifetime tokens: cancellation by generation counting.
//!
//! A state that starts background work is given a token carrying the
//! driver's current generation.  The driver bumps the generation whenever
//! the stack mutates or a fresh user command invalidates outstanding work;
//! a token whose generation no longer matches is stale, and the result it
//! guards must be discarded, never applied.  Dropping a stale result is not
//! an error — it is expected backpressure when user activity outruns
//! computation.

use vstd::prelude::*;

verus! {

/// One generation of background work.  Comparing the held generation with
/// the driver's current one tells a state whether its outstanding work is
/// still relevant.
#[derive(Clone, Copy, Debug, PartialEq, Eq, Structural)]
pub struct TaskLifetime {
    /// The driver generation at the moment the token was minted.
    pub generation: u64,
}

/// Whether a token minted at generation `t.generation` is still current
/// when the driver's generation is `current`.
pub open spec fn token_valid(current: u64, t: TaskLifetime) -> bool {
    t.generation == current
}

/// The generation that follows `g`.  The counter is monotone in practice;
/// wrapping at the top keeps the successor always different from `g`.
pub open spec fn next_generation(g: u64) -> u64 {
    if g == u64::MAX {
        0
    } else {
        (g + 1) as u64
    }
}

/// Bumping the generation invalidates every token minted before the bump.
pub proof fn lemma_next_generation_invalidates(g: u64, t: TaskLifetime)
    requires
        token_valid(g, t),
    ensures
        !token_valid(next_generation(g), t),
{
}

impl TaskLifetime {
    /// A token for the given driver generation.
    pub fn new(generation: u64) -> (t: TaskLifetime)
        ensures
            t.generation == generation,
    {
        TaskLifetime { generation }
    }

    /// Whether this token is still current for driver generation
    /// `current`.  A state must call this (through the token the driver
    /// hands it) before applying a background result.
    pub fn is_valid_for(&self, current: u64) -> (r: bool)
        ensures
            r == token_valid(current, *self),
    {
        self.generation == current
    }

    /// Whether this token and `other` belong to the same generation.
    pub fn same_generation(&self, other: &TaskLifetime) -> (r: bool)
        ensures
            r == (self.generation == other.generation),
    {
        self.generation == other.generation
    }
}

} // verus!

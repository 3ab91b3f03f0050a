//! A scoped-acquisition token that turns exception safety of a critical
//! section into a structural guarantee: unless the token is explicitly
//! defused, every other way out of the scope must end in the abort action.

use vstd::prelude::*;
use crate::action::{TerminationAction, spec_abort_action};
use crate::select::Selection;

verus! {

/// A zero-size guard over a critical section. Creating it has no observable
/// effect; `defuse` consumes it with no side effect. On any disposal that
/// did not defuse it - including destruction during an unwind - the runtime
/// layer must perform `release_action`, which is exactly the abort action.
#[derive(Clone, Debug, PartialEq, Eq, Structural)]
pub struct AbortGuard {}

impl AbortGuard {
    /// Create a guard. No observable effect: by itself this never
    /// terminates anything.
    pub fn new() -> (g: AbortGuard) {
        AbortGuard {}
    }

    /// Defuse the guard, consuming it and suppressing its release action.
    /// Used after the guarded section completed and its invariants were
    /// confirmed; the process keeps running.
    pub fn defuse(self) {
    }

    /// The release action of a guard that was not defused: exactly the
    /// abort action of the build's selection, never anything weaker.
    pub fn release_action(self, sel: &Selection) -> (a: TerminationAction)
        requires
            sel.wf(),
        ensures
            a == spec_abort_action(*sel),
    {
        crate::action::abort(sel)
    }
}

impl Default for AbortGuard {
    /// Equivalent to `AbortGuard::new`.
    fn default() -> (g: Self)
        ensures
            g == (AbortGuard {}),
    {
        AbortGuard::new()
    }
}

} // verus!

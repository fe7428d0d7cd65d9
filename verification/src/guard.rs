//! Exactly-once execution for side-effecting actions behind repeatedly
//! invoked entry points.
//!
//! A guard is a process-wide latch that moves irreversibly from unset to set.
//! The first caller to reach it is told to run the guarded action; every
//! later caller is told the action already ran. A process may host many
//! independent guards, one per distinct idempotent action; they share no
//! state. The caller that hosts a guard behind concurrent entry points
//! serializes calls into it; this type supplies the latch decision itself.

use vstd::prelude::*;

verus! {

/// A process-wide latch guarding exactly one side-effecting action.
pub struct IdempotentGuard {
    pub set: bool,
}

/// How many of `k` successive `claim` calls on one guard are granted the
/// action, starting from a latch in state `initially_set`. Each call is
/// granted exactly when the latch was unset, and leaves the latch set: the
/// recursion follows `claim`'s own transition.
pub open spec fn grants_over(initially_set: bool, k: nat) -> int
    decreases k,
{
    if k == 0 {
        0
    } else {
        (if !initially_set { 1int } else { 0int }) + grants_over(true, (k - 1) as nat)
    }
}

impl IdempotentGuard {
    /// A fresh guard: the latch is unset, the action has not run.
    pub fn new() -> (r: IdempotentGuard)
        ensures
            !r.set,
    {
        IdempotentGuard { set: false }
    }

    /// Claim the guarded action. The first caller — and only the first —
    /// is answered `true` and must run the action to completion before
    /// letting any other caller proceed; every later caller is answered
    /// `false`. The latch is set afterwards in either case, irreversibly.
    pub fn claim(&mut self) -> (run_action: bool)
        ensures
            final(self).set,
            run_action == !old(self).set,
    {
        let first = !self.set;
        self.set = true;
        first
    }
}

/// Exactly-once law: however many callers claim one fresh guard, the action
/// is granted exactly once — to the first caller — and a guard whose latch
/// is already set grants it to nobody.
pub proof fn lemma_guard_exactly_once(k: nat)
    ensures
        k >= 1 ==> grants_over(false, k) == 1,
        grants_over(true, k) == 0,
    decreases k,
{
    if k > 0 {
        lemma_guard_exactly_once((k - 1) as nat);
    }
}

} // verus!

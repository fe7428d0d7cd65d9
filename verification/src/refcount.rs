//! Shared-ownership lifetime management for a managed object.
//!
//! A counter starts at 1 when the first external handle is minted. Every
//! additional owning handle increments it; every release decrements it. The
//! owner of the 1 -> 0 transition — and only that owner — destroys the
//! object, synchronously, as part of the releasing call. The two operations
//! deliberately return asymmetric values to match the external convention:
//! `increment` returns the new count, `decrement` the count observed
//! immediately before the decrement.

use vstd::prelude::*;

verus! {

/// A live reference count. The holder destroys the counted object exactly
/// when `decrement` reports a pre-decrement count of 1.
pub struct RefCount {
    pub count: u32,
}

/// One step of counter history: `true` is an increment, `false` a decrement.
pub type RefOp = bool;

/// How many increments a history holds.
pub open spec fn increments(ops: Seq<RefOp>) -> int
    decreases ops.len(),
{
    if ops.len() == 0 {
        0
    } else {
        increments(ops.drop_last()) + if ops.last() { 1int } else { 0int }
    }
}

/// How many decrements a history holds.
pub open spec fn decrements(ops: Seq<RefOp>) -> int
    decreases ops.len(),
{
    if ops.len() == 0 {
        0
    } else {
        decrements(ops.drop_last()) + if ops.last() { 0int } else { 1int }
    }
}

/// The count after a history of operations, starting from the implicit
/// initial count of 1.
pub open spec fn count_after(ops: Seq<RefOp>) -> int {
    1 + increments(ops) - decrements(ops)
}

/// A history is owned when every call is made by a caller holding a live
/// reference: before each operation the count is at least 1. Operating on an
/// object whose count already reached 0 is a contract violation by the
/// caller.
pub open spec fn owned_history(ops: Seq<RefOp>) -> bool {
    forall|i: int| 0 <= i < ops.len() ==> count_after(#[trigger] ops.take(i)) >= 1
}

/// How many operations of a history destroy the object: the decrements that
/// observe the 1 -> 0 transition.
pub open spec fn destructions(ops: Seq<RefOp>) -> int
    decreases ops.len(),
{
    if ops.len() == 0 {
        0
    } else {
        destructions(ops.drop_last())
            + if !ops.last() && count_after(ops.drop_last()) == 1 { 1int } else { 0int }
    }
}

impl RefCount {
    /// The current count.
    pub open spec fn spec_count(self) -> u32 {
        self.count
    }

    /// Mint the first owning reference: the count starts at 1.
    pub fn new() -> (r: RefCount)
        ensures
            r.spec_count() == 1,
    {
        RefCount { count: 1 }
    }

    /// Add 1; return the resulting count. Cannot fail. The exclusive
    /// reference stands in for the atomic read-modify-write: the host
    /// serializes concurrent callers around the counter.
    pub fn increment(&mut self) -> (r: u32)
        requires
            old(self).spec_count() < u32::MAX,
        ensures
            final(self).spec_count() == old(self).spec_count() + 1,
            r == final(self).spec_count(),
    {
        self.count = self.count + 1;
        self.count
    }

    /// Subtract 1; return the count observed immediately before this
    /// decrement, as a single read-modify-write whose returned value — never
    /// a separate load — decides destruction. A returned value of 1 tells
    /// the caller, and exactly one caller, to destroy the object
    /// synchronously as part of this call.
    /// Decrementing a count of 0 is a contract violation by the caller, not a
    /// condition this component detects, so it is excluded here.
    pub fn decrement(&mut self) -> (r: u32)
        requires
            old(self).spec_count() >= 1,
        ensures
            r == old(self).spec_count(),
            final(self).spec_count() == old(self).spec_count() - 1,
    {
        let before = self.count;
        self.count = self.count - 1;
        before
    }
}

/// For any owned history of N increments and M decrements starting from the
/// implicit initial count of 1, the count afterwards equals 1 + N - M, it
/// never went below 0, and destruction occurred exactly once if the count
/// reached 0 at the end and never otherwise — the 1 -> 0 transition is
/// observed by exactly one decrement.
pub proof fn lemma_counter_history(ops: Seq<RefOp>)
    requires
        owned_history(ops),
    ensures
        count_after(ops) == 1 + increments(ops) - decrements(ops),
        count_after(ops) >= 0,
        destructions(ops) == if count_after(ops) == 0 { 1int } else { 0int },
    decreases ops.len(),
{
    if ops.len() == 0 {
    } else {
        let prefix = ops.drop_last();
        assert(prefix == ops.take(ops.len() - 1));
        assert forall|i: int| 0 <= i < prefix.len()
            implies count_after(#[trigger] prefix.take(i)) >= 1 by {
            assert(prefix.take(i) == ops.take(i));
        }
        lemma_counter_history(prefix);
        assert(count_after(ops.take(ops.len() - 1)) >= 1);
    }
}

/// A history whose increments outnumber its decrements at every prefix is
/// owned, and the object survives it: with N increments and M decrements,
/// N >= M at every step, the final count is 1 + N - M >= 1 and no destruction
/// occurs.
pub proof fn lemma_balanced_history_survives(ops: Seq<RefOp>)
    requires
        forall|i: int| 0 <= i <= ops.len()
            ==> increments(#[trigger] ops.take(i)) >= decrements(ops.take(i)),
    ensures
        owned_history(ops),
        count_after(ops) == 1 + increments(ops) - decrements(ops),
        count_after(ops) >= 1,
        destructions(ops) == 0,
{
    assert forall|i: int| 0 <= i < ops.len()
        implies count_after(#[trigger] ops.take(i)) >= 1 by {
        assert(increments(ops.take(i)) >= decrements(ops.take(i)));
    }
    lemma_counter_history(ops);
    assert(ops.take(ops.len() as int) == ops);
    assert(increments(ops) >= decrements(ops));
}

} // verus!

//! Interface-identity-based capability dispatch over reference-counted
//! managed objects.
//!
//! Every managed object carries a static, compile-time-fixed set of
//! supported interface identities and a live reference count. External
//! handles are explicit indirections — indices into an arena — rather than
//! raw addresses, so a handle stays an address-sized opaque value at the
//! boundary while the library keeps full control of object lifetime.

use vstd::prelude::*;
use crate::error::Error;
use crate::refcount::RefCount;

verus! {

/// An opaque 128-bit value uniquely naming one capability an object may
/// expose. Identities are compared by bit-exact equality only; there is no
/// hierarchy among them.
#[derive(Clone, Copy, Debug, PartialEq, Eq, Structural)]
pub struct InterfaceId {
    pub bits: u128,
}

/// An internally managed entity reachable from outside the process boundary:
/// a static set of supported interface identities, fixed per concrete type at
/// construction, and a live reference count.
pub struct ManagedObject {
    pub supported: Vec<InterfaceId>,
    pub refs: RefCount,
}

/// The arena of managed objects. A handle crossing the external boundary is
/// an index into this arena; a destroyed object leaves an empty slot behind,
/// so indices of other live objects never move.
pub struct ObjectArena {
    pub slots: Vec<Option<ManagedObject>>,
}

impl ObjectArena {
    /// Well-formedness: while any external handle to an object exists, its
    /// count is at least 1. Constructors establish this and every method
    /// preserves it.
    pub open spec fn wf(self) -> bool {
        forall|i: int|
            0 <= i < self.slots@.len() && self.slots@[i] is Some
                ==> (#[trigger] self.slots@[i])->0.refs.spec_count() >= 1
    }

    /// Whether `h` names a live object.
    pub open spec fn live(self, h: int) -> bool {
        0 <= h < self.slots@.len() && self.slots@[h] is Some
    }

    /// The live reference count of the object `h` names.
    pub open spec fn count_of(self, h: int) -> u32 {
        self.slots@[h]->0.refs.spec_count()
    }

    /// The static supported-identity set of the object `h` names.
    pub open spec fn supported_of(self, h: int) -> Seq<InterfaceId> {
        self.slots@[h]->0.supported@
    }

    /// Whether the object `h` names exposes the capability `id`.
    pub open spec fn supports(self, h: int, id: InterfaceId) -> bool {
        self.supported_of(h).contains(id)
    }

    /// An empty arena: no objects, no handles.
    pub fn new() -> (r: ObjectArena)
        ensures
            r.wf(),
            r.slots@.len() == 0,
    {
        ObjectArena { slots: Vec::new() }
    }

    /// Place a newly constructed object, with its static supported set, into
    /// the arena, and mint the first owning handle to it: its count starts
    /// at 1. Existing objects and their handles are untouched.
    pub fn create(&mut self, supported: Vec<InterfaceId>) -> (h: usize)
        requires
            old(self).wf(),
        ensures
            final(self).wf(),
            h == old(self).slots@.len(),
            final(self).slots@.len() == old(self).slots@.len() + 1,
            final(self).live(h as int),
            final(self).count_of(h as int) == 1,
            final(self).supported_of(h as int) == supported@,
            forall|j: int| 0 <= j < old(self).slots@.len()
                ==> final(self).slots@[j] == old(self).slots@[j],
    {
        let h = self.slots.len();
        self.slots.push(Some(ManagedObject { supported, refs: RefCount::new() }));
        h
    }

    /// Add one owning reference to the object `h` names and return the
    /// resulting count. Cannot fail. Nothing but that object's count changes.
    pub fn add_ref(&mut self, h: usize) -> (r: u32)
        requires
            old(self).wf(),
            old(self).live(h as int),
            old(self).count_of(h as int) < u32::MAX,
        ensures
            final(self).wf(),
            final(self).live(h as int),
            final(self).count_of(h as int) == old(self).count_of(h as int) + 1,
            r == final(self).count_of(h as int),
            final(self).supported_of(h as int) == old(self).supported_of(h as int),
            final(self).slots@.len() == old(self).slots@.len(),
            forall|j: int| 0 <= j < old(self).slots@.len() && j != h
                ==> final(self).slots@[j] == old(self).slots@[j],
    {
        match &mut self.slots[h] {
            Some(obj) => obj.refs.increment(),
            None => 0,
        }
    }

    /// Give up one owning reference to the object `h` names and return the
    /// count observed immediately before the decrement. When that value is 1
    /// — and exactly then — this call destroys the object: its slot is
    /// emptied within this call, and no later call observes it live.
    /// Releasing a handle the caller does not own is a contract violation by
    /// the caller and is excluded here. Nothing but that object changes.
    pub fn release(&mut self, h: usize) -> (r: u32)
        requires
            old(self).wf(),
            old(self).live(h as int),
        ensures
            final(self).wf(),
            r == old(self).count_of(h as int),
            final(self).slots@.len() == old(self).slots@.len(),
            old(self).count_of(h as int) == 1 ==> !final(self).live(h as int),
            old(self).count_of(h as int) > 1 ==> final(self).live(h as int)
                && final(self).count_of(h as int) == old(self).count_of(h as int) - 1
                && final(self).supported_of(h as int) == old(self).supported_of(h as int),
            forall|j: int| 0 <= j < old(self).slots@.len() && j != h
                ==> final(self).slots@[j] == old(self).slots@[j],
    {
        let before = match &mut self.slots[h] {
            Some(obj) => obj.refs.decrement(),
            None => 0,
        };
        if before == 1 {
            self.slots[h] = None;
        }
        before
    }

    /// Capability dispatch: decide whether the object `h` names exposes the
    /// requested identity, and if so mint a new owning handle to it.
    ///
    /// Returns `Success` and a fresh owning handle to the same object — the
    /// count is incremented, since the caller now holds one more independent
    /// reference — exactly when `id` is a member of the object's static
    /// supported set. Otherwise returns `InterfaceNotSupported` with no
    /// handle and the arena entirely unchanged. No state other than the
    /// reference count is ever mutated.
    pub fn query_interface(&mut self, h: usize, id: InterfaceId) -> (res: (Error, Option<usize>))
        requires
            old(self).wf(),
            old(self).live(h as int),
            old(self).count_of(h as int) < u32::MAX,
        ensures
            final(self).wf(),
            old(self).supports(h as int, id) ==> {
                &&& res == (Error::Success, Some(h))
                &&& final(self).live(h as int)
                &&& final(self).count_of(h as int) == old(self).count_of(h as int) + 1
                &&& final(self).supported_of(h as int) == old(self).supported_of(h as int)
                &&& final(self).slots@.len() == old(self).slots@.len()
                &&& forall|j: int| 0 <= j < old(self).slots@.len() && j != h
                    ==> final(self).slots@[j] == old(self).slots@[j]
            },
            !old(self).supports(h as int, id) ==> {
                &&& res == (Error::InterfaceNotSupported, None::<usize>)
                &&& *final(self) == *old(self)
            },
    {
        let supported = match &self.slots[h] {
            Some(obj) => contains_id(&obj.supported, id),
            None => false,
        };
        if supported {
            self.add_ref(h);
            (Error::Success, Some(h))
        } else {
            (Error::InterfaceNotSupported, None)
        }
    }
}

/// Whether `id` is a member of the identity list, by bit-exact comparison.
pub fn contains_id(ids: &Vec<InterfaceId>, id: InterfaceId) -> (r: bool)
    ensures
        r == ids@.contains(id),
{
    let n = ids.len();
    let mut i: usize = 0;
    while i < n
        invariant
            n == ids@.len(),
            0 <= i <= n,
            forall|j: int| 0 <= j < i ==> ids@[j] != id,
        decreases n - i,
    {
        if ids[i] == id {
            assert(ids@.contains(id));
            return true;
        }
        i = i + 1;
    }
    false
}

} // verus!

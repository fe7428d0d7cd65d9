use d3d9_core::error::Error;
use d3d9_core::refcount::RefCount;
use d3d9_core::registry::{contains_id, InterfaceId, ObjectArena};

fn id(bits: u128) -> InterfaceId {
    InterfaceId { bits }
}

#[test]
fn refcount_balance_after_sequence() {
    // 4 increments and 2 decrements from the implicit initial count of 1:
    // the count afterwards is 1 + 4 - 2 = 3.
    let mut rc = RefCount::new();
    assert_eq!(rc.increment(), 2);
    assert_eq!(rc.increment(), 3);
    assert_eq!(rc.decrement(), 3); // pre-decrement value
    assert_eq!(rc.increment(), 3);
    assert_eq!(rc.decrement(), 3);
    assert_eq!(rc.increment(), 3);
    assert_eq!(rc.count, 3);
}

#[test]
fn refcount_return_asymmetry() {
    // increment reports the new count; decrement reports the count observed
    // immediately before the decrement.
    let mut rc = RefCount::new();
    assert_eq!(rc.increment(), 2);
    assert_eq!(rc.decrement(), 2);
    assert_eq!(rc.decrement(), 1);
    assert_eq!(rc.count, 0);
}

#[test]
fn arena_destruction_exactly_at_transition() {
    let mut arena = ObjectArena::new();
    let h = arena.create(vec![id(1)]);
    assert_eq!(arena.add_ref(h), 2);
    assert_eq!(arena.add_ref(h), 3);
    // Three releases walk the count back down; only the last observes the
    // 1 -> 0 transition and destroys the object within that call.
    assert_eq!(arena.release(h), 3);
    assert_eq!(arena.release(h), 2);
    assert_eq!(arena.release(h), 1);
}

#[test]
fn arena_objects_are_independent() {
    let mut arena = ObjectArena::new();
    let a = arena.create(vec![id(1)]);
    let b = arena.create(vec![id(2)]);
    assert_ne!(a, b);
    assert_eq!(arena.add_ref(a), 2);
    // b's count is untouched by operations on a.
    assert_eq!(arena.release(b), 1);
    assert_eq!(arena.release(a), 2);
    assert_eq!(arena.release(a), 1);
}

#[test]
fn query_interface_fixture_table() {
    // Exhaustive check over a small fixture table of (object, identity)
    // pairs: Success with a valid handle iff the identity is in the object's
    // static supported set, InterfaceNotSupported with a null result
    // otherwise.
    let base = id(0x0102_0304_0506_0708_090a_0b0c_0d0e_0f10);
    let extra = id(0xffff_0000_ffff_0000_ffff_0000_ffff_0000);
    let absent = id(0x0102_0304_0506_0708_090a_0b0c_0d0e_0f11); // one bit off base
    let table: Vec<(Vec<InterfaceId>, Vec<(InterfaceId, bool)>)> = vec![
        (vec![base, extra], vec![(base, true), (extra, true), (absent, false)]),
        (vec![base], vec![(base, true), (extra, false), (absent, false)]),
        (vec![], vec![(base, false), (extra, false), (absent, false)]),
    ];
    for (supported, probes) in table {
        let mut arena = ObjectArena::new();
        let h = arena.create(supported);
        for (probe, expect_supported) in probes {
            let (status, out) = arena.query_interface(h, probe);
            if expect_supported {
                assert_eq!(status, Error::Success);
                assert_eq!(out, Some(h));
                // Drop the reference the dispatch minted for us.
                arena.release(h);
            } else {
                assert_eq!(status, Error::InterfaceNotSupported);
                assert_eq!(out, None);
            }
        }
        assert_eq!(arena.release(h), 1);
    }
}

#[test]
fn query_interface_mints_owning_reference() {
    let mut arena = ObjectArena::new();
    let h = arena.create(vec![id(5)]);
    let (status, out) = arena.query_interface(h, id(5));
    assert_eq!(status, Error::Success);
    assert_eq!(out, Some(h));
    // The caller now holds two independent owning references: the release of
    // the first observes a pre-decrement count of 2, not 1.
    assert_eq!(arena.release(h), 2);
    assert_eq!(arena.release(h), 1);
}

#[test]
fn query_interface_failure_leaves_count_unchanged() {
    let mut arena = ObjectArena::new();
    let h = arena.create(vec![id(5)]);
    let (status, out) = arena.query_interface(h, id(6));
    assert_eq!(status, Error::InterfaceNotSupported);
    assert_eq!(out, None);
    // Still exactly one owning reference.
    assert_eq!(arena.release(h), 1);
}

#[test]
fn contains_id_is_bit_exact() {
    let ids = vec![id(0), id(u128::MAX), id(1 << 127)];
    assert!(contains_id(&ids, id(0)));
    assert!(contains_id(&ids, id(u128::MAX)));
    assert!(contains_id(&ids, id(1 << 127)));
    assert!(!contains_id(&ids, id(1)));
    assert!(!contains_id(&ids, id(u128::MAX - 1)));
    assert!(!contains_id(&Vec::new(), id(0)));
}

//! Lifecycle tests for the owning handle wrapper, run against the handle
//! table's per-handle invocation records.

use native_handle::handle::NativeHandle;
use native_handle::table::HandleTable;

#[test]
fn adopt_then_as_raw_is_pointer_equal() {
    let mut t = HandleTable::new();
    let r = t.create();
    let h = NativeHandle::from_raw(r);
    assert_eq!(h.as_raw(), r);
    h.release(&mut t);
}

#[test]
fn into_raw_returns_what_as_raw_showed() {
    let mut t = HandleTable::new();
    let r = t.create();
    let h = NativeHandle::from_raw(r);
    let before = h.as_raw();
    let raw = h.into_raw();
    assert_eq!(raw, before);
    // The wrapper is gone and was disarmed: nothing was closed or deleted.
    assert_eq!(t.close_count(raw), 0);
    assert_eq!(t.delete_count(raw), 0);
    assert!(t.valid(raw));
    // The caller now releases by hand.
    assert_eq!(t.close(raw), 0);
    assert_eq!(t.delete(raw), 0);
}

#[test]
fn release_invokes_close_and_delete_once_each() {
    let mut t = HandleTable::new();
    let r = t.create();
    let h = NativeHandle::from_raw(r);
    assert_eq!(t.close_count(r), 0);
    assert_eq!(t.delete_count(r), 0);
    h.release(&mut t);
    assert_eq!(t.close_count(r), 1);
    assert_eq!(t.delete_count(r), 1);
    assert!(!t.valid(r));
}

#[test]
fn release_closes_before_deleting() {
    // The table only accepts a delete of a handle that is already closed, so
    // a completed release shows the calls came in order: close, then delete.
    let mut t = HandleTable::new();
    let r = t.create();
    // Out of order by hand: delete first fails and frees nothing.
    assert_eq!(t.delete(r), -1);
    assert!(t.valid(r));
    let h = NativeHandle::from_raw(r);
    h.release(&mut t);
    assert!(!t.valid(r));
    assert_eq!(t.close_count(r), 1);
    assert_eq!(t.delete_count(r), 2);
}

#[test]
fn clone_from_raw_success_keeps_original() {
    let mut t = HandleTable::new();
    let r = t.create();
    let cloned = NativeHandle::clone_from_raw(&mut t, r).unwrap();
    assert_ne!(cloned.as_raw(), r);
    assert!(t.valid(r));
    assert!(t.valid(cloned.as_raw()));
    assert_eq!(t.allocated(), 2);
    cloned.release(&mut t);
    assert_eq!(t.close(r), 0);
    assert_eq!(t.delete(r), 0);
}

#[test]
fn clone_from_raw_reports_null_as_absent() {
    let mut t = HandleTable::new();
    let r = t.create();
    t.set_dup_fails(r, true);
    let cloned = NativeHandle::clone_from_raw(&mut t, r);
    assert!(cloned.is_none());
    // Nothing was constructed and nothing changed: the original is untouched.
    assert_eq!(t.allocated(), 1);
    assert!(t.valid(r));
    assert_eq!(t.close_count(r), 0);
    assert_eq!(t.delete_count(r), 0);
}

#[test]
fn duplicate_yields_distinct_independent_handle() {
    let mut t = HandleTable::new();
    let r = t.create();
    let h = NativeHandle::from_raw(r);
    let d = h.duplicate(&mut t);
    assert_ne!(d.as_raw(), h.as_raw());
    assert!(t.valid(h.as_raw()));
    assert!(t.valid(d.as_raw()));
    // Each of the two is releasable on its own.
    let dr = d.as_raw();
    d.release(&mut t);
    assert!(!t.valid(dr));
    assert!(t.valid(r));
    h.release(&mut t);
    assert!(!t.valid(r));
    assert_eq!(t.close_count(r), 1);
    assert_eq!(t.delete_count(r), 1);
    assert_eq!(t.close_count(dr), 1);
    assert_eq!(t.delete_count(dr), 1);
}

#[test]
fn adopt_clone_then_drop_each_releases_each_slot_once() {
    let mut t = HandleTable::new();
    let a = t.create();
    let original = NativeHandle::from_raw(a);
    let clone = NativeHandle::clone_from_raw(&mut t, original.as_raw()).unwrap();
    let b = clone.as_raw();
    assert_ne!(a, b);

    original.release(&mut t);
    assert_eq!(t.close_count(a), 1);
    assert_eq!(t.delete_count(a), 1);
    assert_eq!(t.close_count(b), 0);
    assert_eq!(t.delete_count(b), 0);

    clone.release(&mut t);
    assert_eq!(t.close_count(a), 1);
    assert_eq!(t.delete_count(a), 1);
    assert_eq!(t.close_count(b), 1);
    assert_eq!(t.delete_count(b), 1);
}

#[test]
fn into_raw_disarms_release() {
    let mut t = HandleTable::new();
    let b = t.create();
    let h = NativeHandle::from_raw(b);
    let raw = h.into_raw();
    // Manual close + delete, once.
    assert_eq!(t.close(raw), 0);
    assert_eq!(t.delete(raw), 0);
    // No further close or delete came from the discarded wrapper.
    assert_eq!(t.close_count(raw), 1);
    assert_eq!(t.delete_count(raw), 1);
}

#[test]
fn close_twice_reports_failure_and_is_counted() {
    let mut t = HandleTable::new();
    let r = t.create();
    assert_eq!(t.close(r), 0);
    assert_eq!(t.close(r), -1);
    assert_eq!(t.close_count(r), 2);
}

#[test]
fn delete_without_close_reports_failure() {
    let mut t = HandleTable::new();
    let r = t.create();
    assert_eq!(t.delete(r), -1);
    assert_eq!(t.delete_count(r), 1);
    assert!(t.valid(r));
}

#[test]
fn delete_twice_reports_failure_and_is_counted() {
    let mut t = HandleTable::new();
    let r = t.create();
    assert_eq!(t.close(r), 0);
    assert_eq!(t.delete(r), 0);
    assert_eq!(t.delete(r), -1);
    assert_eq!(t.delete_count(r), 2);
}

#[test]
fn created_handles_are_distinct_and_valid() {
    let mut t = HandleTable::new();
    let r1 = t.create();
    let r2 = t.create();
    assert_ne!(r1, r2);
    assert!(t.valid(r1));
    assert!(t.valid(r2));
    assert_eq!(t.allocated(), 2);
}

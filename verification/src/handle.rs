//! The owning wrapper over a raw handle reference.

use vstd::prelude::*;

use crate::table::HandleSlot;
use crate::table::HandleTable;
use crate::table::RawHandle;

verus! {

/// An owning wrapper around a native handle reference.
///
/// A wrapper owns the handle it refers to: exactly one wrapper (or none, once
/// the handle is released or un-wrapped) owns a given handle. The wrapper is a
/// plain value — an address and nothing else, with no thread-affine state —
/// so it may be moved to another thread and borrowed from several threads at
/// once.
pub struct NativeHandle {
    raw: RawHandle,
}

impl NativeHandle {
    /// The reference this wrapper owns.
    pub closed spec fn raw_ref(self) -> RawHandle {
        self.raw
    }

    /// Wraps a raw reference, taking ownership of it.
    ///
    /// The caller must hand over a valid reference and must not use it to
    /// close or delete the handle afterwards; nothing here checks that.
    /// Borrowing the result with [`as_raw`](Self::as_raw) yields exactly
    /// `raw` back.
    pub fn from_raw(raw: RawHandle) -> (h: NativeHandle)
        ensures
            h.raw_ref() == raw,
    {
        NativeHandle { raw }
    }

    /// Borrows the wrapped raw reference without giving up ownership.
    ///
    /// The reference stays owned by this wrapper: the caller must not close
    /// or delete it, and must not keep it beyond the wrapper's lifetime.
    pub fn as_raw(&self) -> (raw: RawHandle)
        ensures
            raw == self.raw_ref(),
    {
        self.raw
    }

    /// Consumes the wrapper and hands its reference — the same one
    /// [`as_raw`](Self::as_raw) returns — back to the caller, who becomes
    /// solely responsible for closing and deleting the handle. The wrapper is
    /// gone afterwards, so no release can ever happen through it.
    pub fn into_raw(self) -> (raw: RawHandle)
        ensures
            raw == self.raw_ref(),
    {
        self.raw
    }

    /// Duplicates the handle behind `raw` and wraps the duplicate, leaving
    /// ownership of `raw` itself with the caller.
    ///
    /// Returns `None`, with the table untouched, exactly when the library
    /// reports that the duplication failed (a null result) — an ordinary,
    /// recoverable outcome here. Otherwise the new wrapper owns a fresh,
    /// valid handle distinct from `raw`, and `raw` itself stays valid.
    pub fn clone_from_raw(table: &mut HandleTable, raw: RawHandle) -> (h: Option<NativeHandle>)
        requires
            old(table).is_valid(raw),
        ensures
            old(table).record(raw).dup_fails ==> h is None
                && final(table).records() == old(table).records(),
            !old(table).record(raw).dup_fails ==> (h matches Some(nh)
                && nh.raw_ref() != raw
                && nh.raw_ref().id() == final(table).slot_count()
                && final(table).records() == old(table).records().push(HandleSlot::fresh())
                && final(table).is_valid(nh.raw_ref())
                && final(table).is_valid(raw)),
    {
        let dup = table.duplicate(raw);
        if dup != 0 {
            Some(NativeHandle { raw: RawHandle::from_addr(dup) })
        } else {
            None
        }
    }

    /// Duplicates this wrapper's own handle: the same step as
    /// [`clone_from_raw`](Self::clone_from_raw) on
    /// [`as_raw`](Self::as_raw)`()`.
    ///
    /// Where `clone_from_raw` reports a failed duplication as `None`, a
    /// failure here would be an invariant violation — a still-valid handle
    /// that cannot be duplicated — and would abort the process rather than be
    /// reported; the precondition therefore rules it out, and the result
    /// always exists: a fresh, valid handle distinct from this wrapper's own,
    /// each of the two releasable on its own.
    pub fn duplicate(&self, table: &mut HandleTable) -> (h: NativeHandle)
        requires
            old(table).is_valid(self.raw_ref()),
            !old(table).record(self.raw_ref()).dup_fails,
        ensures
            h.raw_ref() != self.raw_ref(),
            h.raw_ref().id() == final(table).slot_count(),
            final(table).records() == old(table).records().push(HandleSlot::fresh()),
            final(table).is_valid(h.raw_ref()),
            final(table).is_valid(self.raw_ref()),
    {
        let h = Self::clone_from_raw(table, self.raw);
        h.unwrap()
    }

    /// Releases the handle: closes its descriptors, then deletes it — once
    /// each, touching no other handle's record. Consuming the wrapper is the
    /// only way it releases, so a release happens at most once per wrapper.
    ///
    /// Both library calls must report success. On a valid handle they do: the
    /// table accepts a close exactly of a valid handle and a delete exactly of
    /// a closed, not yet deleted one — which is also how the order of the two
    /// calls shows in the record. A failed status would be an invariant
    /// violation and would abort the process; the precondition rules it out.
    pub fn release(self, table: &mut HandleTable)
        requires
            old(table).is_valid(self.raw_ref()),
            old(table).record(self.raw_ref()).close_count < usize::MAX,
            old(table).record(self.raw_ref()).delete_count < usize::MAX,
        ensures
            final(table).records() == old(table).records().update(
                self.raw_ref().id() - 1,
                old(table).record(self.raw_ref()).after_close().after_delete(),
            ),
            final(table).record(self.raw_ref()).close_count
                == old(table).record(self.raw_ref()).close_count + 1,
            final(table).record(self.raw_ref()).delete_count
                == old(table).record(self.raw_ref()).delete_count + 1,
            final(table).record(self.raw_ref()).closed,
            !final(table).record(self.raw_ref()).live,
            final(table).slot_count() == old(table).slot_count(),
    {
        let close_status = table.close(self.raw);
        assert(close_status == 0);
        let delete_status = table.delete(self.raw);
        assert(delete_status == 0);
        proof {
            assert(table.records() =~= old(table).records().update(
                self.raw_ref().id() - 1,
                old(table).record(self.raw_ref()).after_close().after_delete(),
            ));
        }
    }
}

/// Law: after a successful duplication — the table grew by one fresh record,
/// and `dup` is the newest handle, as the postconditions of
/// [`NativeHandle::duplicate`] and [`NativeHandle::clone_from_raw`] state —
/// the source handle is still valid and its record is untouched, the
/// duplicate is valid, and the two are distinct: each can be released on its
/// own, without the other.
pub proof fn lemma_duplicate_independent(
    t0: HandleTable,
    t1: HandleTable,
    source: RawHandle,
    dup: RawHandle,
)
    requires
        t0.is_valid(source),
        t1.records() == t0.records().push(HandleSlot::fresh()),
        dup.id() == t1.slot_count(),
    ensures
        t1.is_valid(source),
        t1.record(source) == t0.record(source),
        t1.is_valid(dup),
        dup.id() != source.id(),
{
}

/// Law: releasing one handle touches no other. Given the table before and
/// after a release — related as the postcondition of
/// [`NativeHandle::release`] states — every other allocated handle keeps its
/// record, counts and validity included, exactly as it was.
pub proof fn lemma_release_leaves_others(
    t0: HandleTable,
    t1: HandleTable,
    released: RawHandle,
    other: RawHandle,
)
    requires
        t0.in_range(released),
        t1.records() == t0.records().update(
            released.id() - 1,
            t0.record(released).after_close().after_delete(),
        ),
        t0.in_range(other),
        other.id() != released.id(),
    ensures
        t1.record(other) == t0.record(other),
        t1.is_valid(other) == t0.is_valid(other),
{
}

} // verus!

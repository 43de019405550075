//! The native library's side of the handle lifecycle: a table that allocates,
//! duplicates, closes and deletes handles, and records what happened to each.

use vstd::prelude::*;

verus! {

/// A non-null reference to an externally allocated native handle, identified
/// by its address. The structure behind it is opaque: this crate never reads
/// its contents, only tracks who owns the reference.
#[derive(Clone, Copy, Debug, PartialEq, Eq, Structural)]
pub struct RawHandle {
    pub(crate) addr: usize,
}

impl RawHandle {
    /// The address of the referenced handle structure.
    pub closed spec fn id(self) -> usize {
        self.addr
    }

    /// Wraps a non-zero address handed out by the table.
    pub(crate) fn from_addr(addr: usize) -> (raw: RawHandle)
        ensures
            raw.id() == addr,
    {
        RawHandle { addr }
    }
}

/// The lifecycle record the table keeps for one handle.
#[derive(Clone, Copy, Debug, PartialEq, Eq, Structural)]
pub struct HandleSlot {
    /// Allocated and not yet deleted.
    pub live: bool,
    /// The handle's descriptors have been closed.
    pub closed: bool,
    /// How many times close has been invoked on this handle.
    pub close_count: usize,
    /// How many times delete has been invoked on this handle.
    pub delete_count: usize,
    /// When set, duplicating this handle reports failure (a null result).
    pub dup_fails: bool,
}

impl HandleSlot {
    /// The record of a freshly allocated handle.
    pub open spec fn fresh() -> HandleSlot {
        HandleSlot { live: true, closed: false, close_count: 0, delete_count: 0, dup_fails: false }
    }

    /// Close succeeds exactly on a live handle whose descriptors are still open.
    pub open spec fn close_ok(self) -> bool {
        self.live && !self.closed
    }

    /// Delete succeeds exactly on a live handle that has already been closed.
    pub open spec fn delete_ok(self) -> bool {
        self.live && self.closed
    }

    /// The record after one close invocation.
    pub open spec fn after_close(self) -> HandleSlot {
        HandleSlot {
            closed: self.closed || self.close_ok(),
            close_count: (self.close_count + 1) as usize,
            ..self
        }
    }

    /// The record after one delete invocation.
    pub open spec fn after_delete(self) -> HandleSlot {
        HandleSlot {
            live: self.live && !self.delete_ok(),
            delete_count: (self.delete_count + 1) as usize,
            ..self
        }
    }
}

/// An in-process stand-in for the native library: it allocates handles at
/// distinct addresses, duplicates them, and closes and deletes them, keeping a
/// [`HandleSlot`] record per handle. Because it counts every close and delete
/// invocation, the wrapper's exactly-once release discipline can be stated —
/// and checked — against it.
pub struct HandleTable {
    slots: Vec<HandleSlot>,
}

impl HandleTable {
    /// The record of every handle allocated so far, ordered by address: the
    /// handle at address `a` has record `records()[a - 1]`. Address zero is
    /// never allocated; it stands for the null reference.
    pub closed spec fn records(self) -> Seq<HandleSlot> {
        self.slots@
    }

    /// How many handles have been allocated over the table's lifetime.
    pub open spec fn slot_count(self) -> nat {
        self.records().len()
    }

    /// `raw` names a handle this table has allocated.
    pub open spec fn in_range(self, raw: RawHandle) -> bool {
        1 <= raw.id() <= self.slot_count()
    }

    /// The record of the handle `raw`.
    pub open spec fn record(self, raw: RawHandle) -> HandleSlot
        recommends
            self.in_range(raw),
    {
        self.records()[raw.id() - 1]
    }

    /// `raw` is valid: allocated, not closed, not deleted.
    pub open spec fn is_valid(self, raw: RawHandle) -> bool {
        self.in_range(raw) && self.record(raw).live && !self.record(raw).closed
    }

    /// An empty table: no handles allocated yet.
    pub fn new() -> (t: HandleTable)
        ensures
            t.slot_count() == 0,
    {
        HandleTable { slots: Vec::new() }
    }

    /// Allocates a fresh, valid handle — what the native library does when a
    /// handle is first created — and returns the reference to it.
    pub fn create(&mut self) -> (raw: RawHandle)
        ensures
            final(self).records() == old(self).records().push(HandleSlot::fresh()),
            raw.id() == final(self).slot_count(),
            final(self).is_valid(raw),
    {
        self.slots.push(
            HandleSlot { live: true, closed: false, close_count: 0, delete_count: 0, dup_fails: false },
        );
        let addr = self.slots.len();
        RawHandle::from_addr(addr)
    }

    /// Sets whether duplicating `raw` reports failure. The native library can
    /// fail to duplicate a handle (out of descriptors, out of memory); this
    /// knob lets a caller script that outcome.
    pub fn set_dup_fails(&mut self, raw: RawHandle, fails: bool)
        requires
            old(self).in_range(raw),
        ensures
            final(self).records() == old(self).records().update(
                raw.id() - 1,
                (HandleSlot { dup_fails: fails, ..old(self).record(raw) }),
            ),
    {
        let i = raw.addr - 1;
        self.slots[i].dup_fails = fails;
    }

    /// Duplicates a valid handle. On success it allocates an independent
    /// handle — descriptors duplicated, the input untouched — and returns its
    /// address, which is never zero; on failure it returns zero, the null
    /// reference, and changes nothing.
    pub fn duplicate(&mut self, raw: RawHandle) -> (dup: usize)
        requires
            old(self).is_valid(raw),
        ensures
            old(self).record(raw).dup_fails ==> dup == 0
                && final(self).records() == old(self).records(),
            !old(self).record(raw).dup_fails ==> dup == final(self).slot_count()
                && dup != raw.id()
                && final(self).records() == old(self).records().push(HandleSlot::fresh()),
    {
        let i = raw.addr - 1;
        if self.slots[i].dup_fails {
            0
        } else {
            self.slots.push(
                HandleSlot {
                    live: true,
                    closed: false,
                    close_count: 0,
                    delete_count: 0,
                    dup_fails: false,
                },
            );
            self.slots.len()
        }
    }

    /// Closes a handle's descriptors and records the invocation. Returns 0 on
    /// success; -1 if the handle was already closed or already deleted.
    pub fn close(&mut self, raw: RawHandle) -> (status: i32)
        requires
            old(self).in_range(raw),
            old(self).record(raw).close_count < usize::MAX,
        ensures
            final(self).records() == old(self).records().update(
                raw.id() - 1,
                old(self).record(raw).after_close(),
            ),
            status == (if old(self).record(raw).close_ok() { 0i32 } else { -1i32 }),
    {
        let i = raw.addr - 1;
        let ok = self.slots[i].live && !self.slots[i].closed;
        self.slots[i].close_count = self.slots[i].close_count + 1;
        if ok {
            self.slots[i].closed = true;
            0
        } else {
            -1
        }
    }

    /// Deletes (frees) a handle and records the invocation. Returns 0 on
    /// success; -1 if the handle was never closed, or was already deleted.
    pub fn delete(&mut self, raw: RawHandle) -> (status: i32)
        requires
            old(self).in_range(raw),
            old(self).record(raw).delete_count < usize::MAX,
        ensures
            final(self).records() == old(self).records().update(
                raw.id() - 1,
                old(self).record(raw).after_delete(),
            ),
            status == (if old(self).record(raw).delete_ok() { 0i32 } else { -1i32 }),
    {
        let i = raw.addr - 1;
        let ok = self.slots[i].live && self.slots[i].closed;
        self.slots[i].delete_count = self.slots[i].delete_count + 1;
        if ok {
            self.slots[i].live = false;
            0
        } else {
            -1
        }
    }

    /// How many handles this table has allocated over its lifetime.
    pub fn allocated(&self) -> (n: usize)
        ensures
            n == self.slot_count(),
    {
        self.slots.len()
    }

    /// How many times close has been invoked on `raw`.
    pub fn close_count(&self, raw: RawHandle) -> (n: usize)
        requires
            self.in_range(raw),
        ensures
            n == self.record(raw).close_count,
    {
        self.slots[raw.addr - 1].close_count
    }

    /// How many times delete has been invoked on `raw`.
    pub fn delete_count(&self, raw: RawHandle) -> (n: usize)
        requires
            self.in_range(raw),
        ensures
            n == self.record(raw).delete_count,
    {
        self.slots[raw.addr - 1].delete_count
    }

    /// Whether `raw` is currently valid: allocated, not closed, not deleted.
    pub fn valid(&self, raw: RawHandle) -> (b: bool)
        ensures
            b == self.is_valid(raw),
    {
        let a = raw.addr;
        if 1 <= a && a <= self.slots.len() {
            let s = self.slots[a - 1];
            s.live && !s.closed
        } else {
            false
        }
    }
}

} // verus!

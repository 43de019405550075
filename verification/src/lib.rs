//! An owning wrapper around an opaque, externally allocated native handle: a
//! bundle of file descriptors and integer values passed between processes as
//! one unit.
//!
//! The wrapper's whole job is lifecycle bookkeeping — adopt a raw reference,
//! duplicate it, borrow it, hand it back, and release it exactly once. The
//! handle structure itself is opaque: nothing here reads its contents. The
//! native library's operations (duplicate, close, delete) are given by a
//! [`table::HandleTable`], which allocates handles at distinct addresses and
//! records every close and delete invocation, so the exactly-once release
//! discipline of [`handle::NativeHandle`] is stated, and proved, against it.

pub mod handle;
pub mod table;

pub use handle::NativeHandle;
pub use table::HandleTable;
pub use table::RawHandle;

//! A 64-bit floating-point cell that several threads can share.

use std::sync::atomic::AtomicU64;
use std::sync::atomic::Ordering;
use vstd::prelude::*;

verus! {

/// Whether `ordering` may be given to [`AtomicF64::store`]: a store can not
/// acquire.
pub open spec fn store_ordering(ordering: Ordering) -> bool {
    ordering != Ordering::Acquire && ordering != Ordering::AcqRel
}

/// Whether `ordering` may be given to [`AtomicF64::load`]: a load can not
/// release.
pub open spec fn load_ordering(ordering: Ordering) -> bool {
    ordering != Ordering::Release && ordering != Ordering::AcqRel
}

/// A binary64 value that is replaced and read as a whole, without locking.
///
/// The cell keeps the bit pattern of the value. Another thread may store
/// between any two calls, so nothing is promised about what `load` returns.
pub struct AtomicF64 {
    inner: AtomicU64,
}

impl AtomicF64 {
    /// A cell that holds the value with the bit pattern `value`.
    pub fn new(value: u64) -> Self {
        Self { inner: AtomicU64::new(value) }
    }

    /// Replaces the value in the cell.
    pub fn store(&self, value: u64, ordering: Ordering)
        requires
            store_ordering(ordering),
    {
        self.inner.store(value, ordering)
    }

    /// The bit pattern of the value now in the cell.
    pub fn load(&self, ordering: Ordering) -> u64
        requires
            load_ordering(ordering),
    {
        self.inner.load(ordering)
    }
}

} // verus!

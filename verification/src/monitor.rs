//! The detachable read-only view onto a shared byte counter.

use vstd::prelude::*;
use std::sync::Arc;
use core::sync::atomic::{AtomicU64, Ordering};
use crate::counter::share_cell;

verus! {

/// A read-only handle onto a shared byte counter. It holds nothing but a
/// shared reference to the cell: it cannot write to the sink and cannot
/// change the count. Any number of handles may read concurrently with each
/// other and with the one writer.
pub struct Monitor {
    cell: Arc<AtomicU64>,
}

impl Monitor {
    /// The shared cell this handle watches, for stating which values share
    /// one counter.
    pub closed spec fn cell_id(self) -> Arc<AtomicU64> {
        self.cell
    }

    pub(crate) fn from_cell(cell: Arc<AtomicU64>) -> (r: Monitor)
        ensures
            r.cell_id() == cell,
    {
        Monitor { cell }
    }

    /// The cell's current value, read with acquire semantics: at least as
    /// large as any write the counter's writer had recorded before this call
    /// began, under the usual happens-before visibility of the atomic cell.
    /// Which exact value a concurrent reader sees is a property of the
    /// scheduling, so no more is stated here.
    pub fn bytes_written(&self) -> u64 {
        self.cell.load(Ordering::Acquire)
    }

    /// Gives up the handle and returns the raw shared cell, for compositions
    /// that want to store the counter without this wrapper.
    pub fn into_inner(self) -> (r: Arc<AtomicU64>)
        ensures
            r == self.cell_id(),
    {
        self.cell
    }
}

impl Clone for Monitor {
    /// A clone watches the very same cell: the two handles are
    /// interchangeable observers.
    fn clone(&self) -> (r: Self)
        ensures
            r == *self,
    {
        Monitor { cell: share_cell(&self.cell) }
    }
}

} // verus!

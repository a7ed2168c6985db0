//! The shared byte counter and the one accounting routine every write
//! discipline goes through.

use vstd::prelude::*;
use std::sync::Arc;
use core::sync::atomic::{AtomicU64, Ordering};

verus! {

/// Addition on `u64` that wraps around on overflow, the arithmetic that
/// `AtomicU64::fetch_add` performs. In practice the count never comes near
/// the wrap; the model states it anyway so the contracts hold of every input.
pub open spec fn wrap_add(a: u64, n: u64) -> u64 {
    if a + n <= u64::MAX {
        (a + n) as u64
    } else {
        (a + n - 0x1_0000_0000_0000_0000) as u64
    }
}

/// What one blocking write contributes to the counter: the accepted byte
/// count on success, nothing on failure.
pub open spec fn write_delta<E>(r: Result<usize, E>) -> u64 {
    match r {
        Ok(n) => n as u64,
        Err(_) => 0,
    }
}

/// Outcome of one non-blocking write poll on the sink: not yet ready, or
/// ready with the sink's own result.
pub enum PollWrite<E> {
    Pending,
    Ready(Result<usize, E>),
}

/// What one write poll contributes to the counter: nothing while pending,
/// and the write's own contribution once ready.
pub open spec fn poll_delta<E>(p: PollWrite<E>) -> u64 {
    match p {
        PollWrite::Pending => 0,
        PollWrite::Ready(r) => write_delta(r),
    }
}

/// The write side of the shared counter: one atomic cell, owned jointly with
/// any number of read-only handles, plus the writer's own running tally.
///
/// The cell and the tally are updated together, so for the single writer the
/// tally is the counter's value; the cell is what detached handles read from
/// other threads.
pub struct SharedCounter {
    cell: Arc<AtomicU64>,
    counted: u64,
}

impl SharedCounter {
    /// Cumulative bytes recorded since construction.
    pub closed spec fn count(self) -> u64 {
        self.counted
    }

    /// The shared cell itself, for stating which values share one counter.
    pub closed spec fn cell_id(self) -> Arc<AtomicU64> {
        self.cell
    }

    /// A fresh counter at zero.
    pub fn new() -> (r: SharedCounter)
        ensures
            r.count() == 0,
    {
        SharedCounter { cell: Arc::new(AtomicU64::new(0)), counted: 0 }
    }

    /// Current count. Equals the shared cell's value as long as this write
    /// side is the only mutator, which the types enforce for every mutation
    /// made through this library.
    pub fn bytes_written(&self) -> (r: u64)
        ensures
            r == self.count(),
    {
        self.counted
    }

    /// Records `n` more accepted bytes: a fetch-add with acquire-release
    /// ordering on the shared cell, so a handle's acquire load on another
    /// thread observes it, and the same addition on the writer's tally.
    pub fn add_bytes(&mut self, n: u64)
        ensures
            final(self).count() == wrap_add(old(self).count(), n),
            final(self).cell_id() == old(self).cell_id(),
    {
        self.cell.fetch_add(n, Ordering::AcqRel);
        self.counted = if n <= u64::MAX - self.counted {
            self.counted + n
        } else {
            n - (u64::MAX - self.counted) - 1
        };
    }

    /// The accounting step of the blocking write discipline: counts the
    /// accepted bytes of a successful write, nothing of a failed one, and
    /// hands the sink's result back unchanged.
    pub fn record_write<E>(&mut self, r: Result<usize, E>) -> (out: Result<usize, E>)
        ensures
            out == r,
            final(self).count() == wrap_add(old(self).count(), write_delta(r)),
            final(self).cell_id() == old(self).cell_id(),
    {
        match r {
            Ok(n) => {
                self.add_bytes(n as u64);
                Ok(n)
            },
            Err(e) => Err(e),
        }
    }

    /// The accounting step of the non-blocking write disciplines: a pending
    /// poll leaves the counter untouched, a ready one is counted like a
    /// blocking write; the outcome goes back unchanged either way.
    pub fn record_poll_write<E>(&mut self, p: PollWrite<E>) -> (out: PollWrite<E>)
        ensures
            out == p,
            final(self).count() == wrap_add(old(self).count(), poll_delta(p)),
            final(self).cell_id() == old(self).cell_id(),
    {
        match p {
            PollWrite::Pending => PollWrite::Pending,
            PollWrite::Ready(r) => PollWrite::Ready(self.record_write(r)),
        }
    }

    /// A new read-only handle onto the same shared cell.
    pub fn monitor(&self) -> (r: crate::monitor::Monitor)
        ensures
            r.cell_id() == self.cell_id(),
    {
        crate::monitor::Monitor::from_cell(share_cell(&self.cell))
    }
}

/// Relies on `Arc::clone`: the new `Arc` points at the same allocation, so it
/// carries the same cell.
#[verifier::external_body]
pub(crate) fn share_cell(cell: &Arc<AtomicU64>) -> (r: Arc<AtomicU64>)
    ensures
        r == *cell,
{
    Arc::clone(cell)
}

} // verus!

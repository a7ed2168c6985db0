//! The monitored writer: transparent forwarding to a sink plus counting.

use vstd::prelude::*;
use std::sync::Arc;
use core::sync::atomic::AtomicU64;
use crate::counter::SharedCounter;
use crate::counter::wrap_add;
use crate::counter::write_delta;
use crate::monitor::Monitor;

verus! {

/// The blocking write capability a sink offers: write some bytes, reporting
/// either how many it accepted or its own error, and flush. Implementors
/// decide entirely for themselves how many bytes to accept and when to fail;
/// the monitored writer promises nothing about those choices, only about the
/// counting that follows them.
pub trait BlockingSink {
    type Error;

    fn write(&mut self, buf: &[u8]) -> (r: Result<usize, Self::Error>);

    fn flush(&mut self) -> (r: Result<(), Self::Error>);
}

/// Wraps a sink and tracks how many bytes were successfully written to it.
///
/// Every operation is forwarded unchanged; the only added behaviour is that
/// each successful write adds the sink's reported accepted byte count to a
/// shared counter, which detached [`Monitor`] handles can read concurrently.
pub struct WriteMonitor<W> {
    inner: W,
    counter: SharedCounter,
}

impl<W> WriteMonitor<W> {
    /// Cumulative bytes the sink has accepted since construction.
    pub closed spec fn count(self) -> u64 {
        self.counter.count()
    }

    /// The wrapped sink.
    pub closed spec fn sink(self) -> W {
        self.inner
    }

    /// The shared cell behind this writer's counter.
    pub closed spec fn cell_id(self) -> Arc<AtomicU64> {
        self.counter.cell_id()
    }

    /// Takes exclusive ownership of the sink; the counter starts at zero.
    pub fn new(inner: W) -> (r: Self)
        ensures
            r.count() == 0,
            r.sink() == inner,
    {
        WriteMonitor { inner, counter: SharedCounter::new() }
    }

    /// The current value of the counter.
    pub fn bytes_written(&self) -> (r: u64)
        ensures
            r == self.count(),
    {
        self.counter.bytes_written()
    }

    /// A new read-only handle sharing this writer's counter. May be called
    /// any number of times; every handle watches the same cell.
    pub fn monitor(&self) -> (r: Monitor)
        ensures
            r.cell_id() == self.cell_id(),
    {
        self.counter.monitor()
    }

    /// Consumes the wrapper and returns the sink. Handles stay valid but the
    /// counter they watch will never move again.
    pub fn into_inner(self) -> (r: W)
        ensures
            r == self.sink(),
    {
        self.inner
    }
}

impl<W: BlockingSink> WriteMonitor<W> {
    /// Forwards `buf` to the sink's blocking write. On success the accepted
    /// byte count — exactly what the sink reported, nothing recovered from a
    /// failure — is added to the counter; the sink's result comes back
    /// unchanged either way.
    pub fn write(&mut self, buf: &[u8]) -> (r: Result<usize, W::Error>)
        ensures
            final(self).count() == wrap_add(old(self).count(), write_delta(r)),
            final(self).cell_id() == old(self).cell_id(),
    {
        let r = self.inner.write(buf);
        self.counter.record_write(r)
    }

    /// Pure pass-through to the sink's flush; the counter is never touched.
    pub fn flush(&mut self) -> (r: Result<(), W::Error>)
        ensures
            final(self).count() == old(self).count(),
            final(self).cell_id() == old(self).cell_id(),
    {
        self.inner.flush()
    }
}

} // verus!

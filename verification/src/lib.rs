//! Instrumentation layer for byte sinks: a monitored writer forwards every
//! write unchanged to an underlying sink while a shared atomic counter
//! accumulates the number of bytes the sink reported as accepted. Detachable
//! read-only handles let other threads observe the counter concurrently.

mod counter;
mod laws;
mod monitor;
mod writer;

pub use counter::PollWrite;
pub use counter::SharedCounter;
pub use counter::poll_delta;
pub use counter::wrap_add;
pub use counter::write_delta;
pub use laws::count_after_polls;
pub use laws::count_after_writes;
pub use laws::lemma_failed_write_uncounted;
pub use laws::lemma_successful_writes_sum_up;
pub use laws::lemma_write_polled_to_completion;
pub use laws::sum_of;
pub use monitor::Monitor;
pub use writer::BlockingSink;
pub use writer::WriteMonitor;

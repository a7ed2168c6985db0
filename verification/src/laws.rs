//! Laws of the counter across whole sequences of operations.
//!
//! The contracts in [`crate::counter`] pin down one step at a time; the
//! proofs here state what follows for a run of steps: successful writes
//! accumulate to their sum, failures and pending polls contribute nothing,
//! and a write that finally completes after any number of pending polls is
//! counted exactly once.

use vstd::prelude::*;
use crate::counter::PollWrite;
use crate::counter::poll_delta;
use crate::counter::wrap_add;
use crate::counter::write_delta;

verus! {

/// The mathematical sum of a sequence of byte counts.
pub open spec fn sum_of(ns: Seq<u64>) -> int
    decreases ns.len(),
{
    if ns.len() == 0 {
        0
    } else {
        sum_of(ns.drop_last()) + ns.last()
    }
}

/// The counter's value after recording successful writes of the given sizes,
/// one `add_bytes` step per write, starting from `start`.
pub open spec fn count_after_writes(start: u64, ns: Seq<u64>) -> u64
    decreases ns.len(),
{
    if ns.len() == 0 {
        start
    } else {
        wrap_add(count_after_writes(start, ns.drop_last()), ns.last())
    }
}

/// The counter's value after recording the given write-poll outcomes, one
/// `record_poll_write` step per outcome, starting from `start`.
pub open spec fn count_after_polls<E>(start: u64, ps: Seq<PollWrite<E>>) -> u64
    decreases ps.len(),
{
    if ps.len() == 0 {
        start
    } else {
        wrap_add(count_after_polls(start, ps.drop_last()), poll_delta(ps.last()))
    }
}

proof fn lemma_count_after_writes_from(start: u64, ns: Seq<u64>)
    requires
        start + sum_of(ns) <= u64::MAX,
    ensures
        count_after_writes(start, ns) == start + sum_of(ns),
    decreases ns.len(),
{
    if ns.len() > 0 {
        lemma_count_after_writes_from(start, ns.drop_last());
    }
}

/// For every sequence of successful writes of sizes `n_1 .. n_k` whose total
/// fits the counter, the count after all of them complete is exactly the sum
/// `n_1 + .. + n_k`. Observer reads never enter into it: reading the counter
/// changes nothing, so the result holds however reads interleave.
pub proof fn lemma_successful_writes_sum_up(ns: Seq<u64>)
    requires
        sum_of(ns) <= u64::MAX,
    ensures
        count_after_writes(0, ns) == sum_of(ns),
{
    lemma_count_after_writes_from(0, ns);
}

/// A failed write contributes nothing to the counter, whatever partial work
/// the sink's error may describe: only a reported accepted count is ever
/// added, and a failure reports none.
pub proof fn lemma_failed_write_uncounted<E>(start: u64, r: Result<usize, E>)
    requires
        r is Err,
    ensures
        wrap_add(start, write_delta(r)) == start,
{
}

proof fn lemma_pending_polls_unchanged<E>(start: u64, ps: Seq<PollWrite<E>>)
    requires
        forall|i: int| 0 <= i < ps.len() ==> ps[i] is Pending,
    ensures
        count_after_polls(start, ps) == start,
    decreases ps.len(),
{
    if ps.len() > 0 {
        lemma_pending_polls_unchanged(start, ps.drop_last());
    }
}

/// Polling a pending write never changes the counter, and when the write at
/// last completes with `n` bytes accepted, exactly `n` is added, once: a run
/// of pending polls followed by the ready outcome adds `n` in total.
pub proof fn lemma_write_polled_to_completion<E>(start: u64, ps: Seq<PollWrite<E>>, n: usize)
    requires
        ps.len() >= 1,
        forall|i: int| 0 <= i < ps.len() - 1 ==> ps[i] is Pending,
        ps.last() == PollWrite::<E>::Ready(Ok(n)),
    ensures
        count_after_polls(start, ps) == wrap_add(start, n as u64),
{
    lemma_pending_polls_unchanged(start, ps.drop_last());
}

} // verus!

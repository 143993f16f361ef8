//! The virtual clock's state and its transitions.
//!
//! [`ClockState`] is the mutable heart of the virtual-clock provider: the
//! current instant, the cumulative waited span, and the number of wait calls.
//! Each operation on the virtual clock is a pure transition on this state,
//! written here both as a spec function (the contract) and as an executable
//! function proved equal to it. The shared, lock-guarded provider applies
//! these transitions inside its critical sections.
//!
//! Waiting on a virtual clock is additive: `wait(d)` unconditionally adds `d`
//! to the current instant and to the waited total and increments the call
//! count; it never blocks until some external advance reaches a target. In
//! consequence, any number of waits issued against one clock move it by the
//! sum of their durations, in whatever order they are applied —
//! [`lemma_waits_commute`] proves that order-independence.

use vstd::prelude::*;
use vstd::seq_lib::group_to_multiset_ensures;

use crate::time::{sat_i64, Duration, Instant};

verus! {

/// The state of one virtual clock.
#[derive(Clone, Copy, Debug, PartialEq, Eq, Structural)]
pub struct ClockState {
    /// The clock's current instant.
    pub now: Instant,
    /// Cumulative span added by wait calls since creation or the last reset.
    pub total_waited: Duration,
    /// Number of wait calls since creation or the last reset.
    pub wait_call_count: usize,
}

/// The state of a fresh clock that starts at `start`.
pub open spec fn initial_state(start: Instant) -> ClockState {
    ClockState {
        now: start,
        total_waited: Duration { micros: 0 },
        wait_call_count: 0,
    }
}

/// The state after `wait(d)`: the instant and the waited total both move by
/// `d` (saturating), and the call count rises by one (saturating).
pub open spec fn wait_step(s: ClockState, d: Duration) -> ClockState {
    ClockState {
        now: Instant { micros: sat_i64(s.now.micros + d.micros) as i64 },
        total_waited: Duration { micros: sat_i64(s.total_waited.micros + d.micros) as i64 },
        wait_call_count: if s.wait_call_count == usize::MAX {
            usize::MAX
        } else {
            (s.wait_call_count + 1) as usize
        },
    }
}

/// The state after `advance(d)`: only the instant moves; the wait statistics
/// are untouched, because an external advance is not a task waiting.
pub open spec fn advance_step(s: ClockState, d: Duration) -> ClockState {
    ClockState { now: Instant { micros: sat_i64(s.now.micros + d.micros) as i64 }, ..s }
}

/// The state after `set(t)`: only the instant changes, to exactly `t`.
pub open spec fn set_step(s: ClockState, t: Instant) -> ClockState {
    ClockState { now: t, ..s }
}

/// The state after `reset_wait_tracking()`: the wait statistics return to
/// zero; the instant is untouched.
pub open spec fn reset_step(s: ClockState) -> ClockState {
    ClockState { total_waited: Duration { micros: 0 }, wait_call_count: 0, ..s }
}

/// The state after `wait_until(deadline)`: a no-op when the deadline is at or
/// before the clock's instant, and otherwise a wait for exactly the span from
/// the instant to the deadline.
pub open spec fn wait_until_step(s: ClockState, deadline: Instant) -> ClockState {
    if deadline.micros <= s.now.micros {
        s
    } else {
        wait_step(s, Duration { micros: sat_i64(deadline.micros - s.now.micros) as i64 })
    }
}

impl ClockState {
    /// A fresh clock state starting at `start`, with zeroed wait statistics.
    pub fn new(start: Instant) -> (r: ClockState)
        ensures
            r == initial_state(start),
    {
        ClockState { now: start, total_waited: Duration { micros: 0 }, wait_call_count: 0 }
    }

    /// The state after waiting for `d` on this state.
    pub fn after_wait(self, d: Duration) -> (r: ClockState)
        ensures
            r == wait_step(self, d),
    {
        ClockState {
            now: self.now.saturating_add(d),
            total_waited: self.total_waited.saturating_add(d),
            wait_call_count: if self.wait_call_count == usize::MAX {
                usize::MAX
            } else {
                self.wait_call_count + 1
            },
        }
    }

    /// The state after advancing this state by `d`.
    pub fn after_advance(self, d: Duration) -> (r: ClockState)
        ensures
            r == advance_step(self, d),
    {
        ClockState { now: self.now.saturating_add(d), ..self }
    }

    /// The state after setting this state's instant to `t`.
    pub fn after_set(self, t: Instant) -> (r: ClockState)
        ensures
            r == set_step(self, t),
    {
        ClockState { now: t, ..self }
    }

    /// The state after resetting this state's wait statistics.
    pub fn after_reset(self) -> (r: ClockState)
        ensures
            r == reset_step(self),
    {
        ClockState { total_waited: Duration { micros: 0 }, wait_call_count: 0, ..self }
    }
}

/// Waiting moves the clock by exactly the waited span: for every duration `d`
/// whose addition does not leave the representable range, the instant after
/// `wait(d)` is the instant before plus `d`.
pub proof fn lemma_wait_moves_now(s: ClockState, d: Duration)
    requires
        i64::MIN <= s.now.micros + d.micros <= i64::MAX,
    ensures
        wait_step(s, d).now.micros == s.now.micros + d.micros,
{
}

/// `wait_until` at or before the clock's instant is a no-op: no field of the
/// state changes, in particular the wait-call count.
pub proof fn lemma_wait_until_past_is_noop(s: ClockState, deadline: Instant)
    requires
        deadline.micros <= s.now.micros,
    ensures
        wait_until_step(s, deadline) == s,
{
}

/// `wait_until` is the uniform composition of a read and a wait: it equals a
/// plain `wait` for the remaining span when the deadline lies ahead of the
/// clock, and leaves the state untouched otherwise.
pub proof fn lemma_wait_until_composes(s: ClockState, deadline: Instant)
    ensures
        wait_until_step(s, deadline) == (match crate::provider::spec_remaining_until(
            s.now,
            deadline,
        ) {
            Some(d) => wait_step(s, d),
            None => s,
        }),
{
}

/// A reset zeroes both wait statistics and leaves the instant untouched.
pub proof fn lemma_reset_keeps_now(s: ClockState)
    ensures
        reset_step(s).total_waited.micros == 0,
        reset_step(s).wait_call_count == 0,
        reset_step(s).now == s.now,
{
}

/// Advancing and setting never touch the wait statistics.
pub proof fn lemma_mutation_keeps_statistics(s: ClockState, d: Duration, t: Instant)
    ensures
        advance_step(s, d).total_waited == s.total_waited,
        advance_step(s, d).wait_call_count == s.wait_call_count,
        set_step(s, t).total_waited == s.total_waited,
        set_step(s, t).wait_call_count == s.wait_call_count,
{
}

/// The state after applying a sequence of waits, first element first.
pub open spec fn apply_waits(s: ClockState, ds: Seq<Duration>) -> ClockState
    decreases ds.len(),
{
    if ds.len() == 0 {
        s
    } else {
        apply_waits(wait_step(s, ds[0]), ds.drop_first())
    }
}

/// The sum, in microseconds, of a sequence of durations.
pub open spec fn sum_micros(ds: Seq<Duration>) -> int
    decreases ds.len(),
{
    if ds.len() == 0 {
        0
    } else {
        ds[0].micros + sum_micros(ds.drop_first())
    }
}

/// After a sequence of non-negative waits that stays within the representable
/// range, the instant and the waited total have both moved by the sum of the
/// durations, and the call count by their number.
pub proof fn lemma_sequential_waits(s: ClockState, ds: Seq<Duration>)
    requires
        forall|i: int| 0 <= i < ds.len() ==> 0 <= #[trigger] ds[i].micros,
        s.now.micros + sum_micros(ds) <= i64::MAX,
        s.total_waited.micros + sum_micros(ds) <= i64::MAX,
        s.wait_call_count + ds.len() <= usize::MAX,
    ensures
        apply_waits(s, ds).now.micros == s.now.micros + sum_micros(ds),
        apply_waits(s, ds).total_waited.micros == s.total_waited.micros + sum_micros(ds),
        apply_waits(s, ds).wait_call_count == s.wait_call_count + ds.len(),
    decreases ds.len(),
{
    if ds.len() > 0 {
        lemma_sum_micros_nonneg(ds.drop_first());
        lemma_sequential_waits(wait_step(s, ds[0]), ds.drop_first());
    }
}

/// A sequence of non-negative durations has a non-negative sum.
pub proof fn lemma_sum_micros_nonneg(ds: Seq<Duration>)
    requires
        forall|i: int| 0 <= i < ds.len() ==> 0 <= #[trigger] ds[i].micros,
    ensures
        0 <= sum_micros(ds),
    decreases ds.len(),
{
    if ds.len() > 0 {
        lemma_sum_micros_nonneg(ds.drop_first());
    }
}

/// Removing one element splits the sum: the sum of a sequence is the removed
/// element plus the sum of the remainder.
proof fn lemma_sum_micros_remove(ds: Seq<Duration>, i: int)
    requires
        0 <= i < ds.len(),
    ensures
        sum_micros(ds) == ds[i].micros + sum_micros(ds.remove(i)),
    decreases ds.len(),
{
    if i == 0 {
        assert(ds.remove(0) =~= ds.drop_first());
    } else {
        lemma_sum_micros_remove(ds.drop_first(), i - 1);
        assert(ds.remove(i).drop_first() =~= ds.drop_first().remove(i - 1));
    }
}

/// The sum of a sequence of durations depends only on which durations occur,
/// not on their order: two sequences with equal multisets have equal sums.
pub proof fn lemma_sum_micros_permutation(ds: Seq<Duration>, es: Seq<Duration>)
    requires
        ds.to_multiset() == es.to_multiset(),
    ensures
        sum_micros(ds) == sum_micros(es),
    decreases ds.len(),
{
    broadcast use group_to_multiset_ensures;

    if ds.len() == 0 {
        assert(es.to_multiset().len() == 0);
    } else {
        let d = ds[0];
        assert(ds.to_multiset().count(d) > 0);
        assert(es.contains(d));
        let j = choose|j: int| 0 <= j < es.len() && es[j] == d;
        assert(ds.remove(0).to_multiset() =~= es.remove(j).to_multiset());
        lemma_sum_micros_permutation(ds.remove(0), es.remove(j));
        lemma_sum_micros_remove(ds, 0);
        lemma_sum_micros_remove(es, j);
    }
}

/// Concurrent waits are additive and order-independent: whenever one
/// interleaving applies a set of wait durations to a clock, every other
/// interleaving of the same durations leaves the clock at the same state, and
/// (when the sums stay in range) that state's instant is the start plus the
/// sum of all the durations.
pub proof fn lemma_waits_commute(s: ClockState, ds: Seq<Duration>, es: Seq<Duration>)
    requires
        ds.to_multiset() == es.to_multiset(),
        forall|i: int| 0 <= i < ds.len() ==> 0 <= #[trigger] ds[i].micros,
        s.now.micros + sum_micros(ds) <= i64::MAX,
        s.total_waited.micros + sum_micros(ds) <= i64::MAX,
        s.wait_call_count + ds.len() <= usize::MAX,
    ensures
        apply_waits(s, es) == apply_waits(s, ds),
        apply_waits(s, ds).now.micros == s.now.micros + sum_micros(ds),
{
    broadcast use group_to_multiset_ensures;

    assert(forall|i: int| 0 <= i < es.len() ==> 0 <= #[trigger] es[i].micros) by {
        assert forall|i: int| 0 <= i < es.len() implies 0 <= #[trigger] es[i].micros by {
            assert(es.to_multiset().count(es[i]) > 0);
            assert(ds.contains(es[i]));
        }
    }
    assert(es.len() == ds.len()) by {
        assert(es.to_multiset().len() == es.len());
        assert(ds.to_multiset().len() == ds.len());
    }
    lemma_sum_micros_permutation(ds, es);
    lemma_sequential_waits(s, ds);
    lemma_sequential_waits(s, es);
    assert(apply_waits(s, es) =~= apply_waits(s, ds));
}

} // verus!

//! The provider contract: the capability set every time source implements.
//!
//! The four operations are `now`, `wait`, `wait_until` and `is_test`. Because
//! suspending a task is the runtime's business and not this library's, `wait`
//! and `wait_until` do not themselves suspend: they perform every clock-side
//! effect and return a [`Pause`] describing the suspension the caller owes the
//! scheduler. A thin asynchronous shell can then perform the pause — a timed
//! sleep for the real clock, a single cooperative yield for the virtual one —
//! with no logic of its own.

use vstd::prelude::*;

use crate::system::SystemTimeProvider;
use crate::test::TestTimeProvider;
use crate::time::{sat_i64, Duration, Instant};

verus! {

/// The suspension a caller owes the scheduler after a `wait` or `wait_until`
/// call: nothing, one cooperative yield, or a timed sleep of the given number
/// of microseconds.
#[derive(Clone, Copy, Debug, PartialEq, Eq, Structural)]
pub enum Pause {
    /// Return to the caller immediately; no suspension is owed.
    NoOp,
    /// Yield to the scheduler exactly once, without a timer.
    Yield,
    /// Sleep for this many microseconds of wall-clock time.
    Sleep(u64),
}

/// The uniform `wait_until` rule: the span still to wait from `now` to
/// `deadline`, or `None` when the deadline is at or before `now`. When the
/// true span exceeds the representable range it is clamped.
pub open spec fn spec_remaining_until(now: Instant, deadline: Instant) -> Option<Duration> {
    if deadline.micros <= now.micros {
        None
    } else {
        Some(Duration { micros: sat_i64(deadline.micros - now.micros) as i64 })
    }
}

/// The span still to wait from `now` to `deadline`, or `None` when the
/// deadline is at or before `now`. Both providers compose `wait_until` from
/// this rule and their own `wait`.
pub fn remaining_until(now: Instant, deadline: Instant) -> (r: Option<Duration>)
    ensures
        r == spec_remaining_until(now, deadline),
        r matches Some(d) ==> d.micros > 0,
{
    if deadline.timestamp_micros() > now.timestamp_micros() {
        Some(deadline.signed_duration_since(now))
    } else {
        None
    }
}

/// The capability set of a time source: read the clock, wait for a span, wait
/// until a deadline, and tell whether the clock is virtual.
///
/// `wait` and `wait_until` return the [`Pause`] the caller owes the scheduler;
/// every clock-side effect has already happened when they return.
pub trait TimeProvider: Sized {
    /// The provider's current instant. Never suspends and never fails.
    fn now(&self) -> Instant;

    /// Performs the clock-side effects of waiting for `duration` and returns
    /// the suspension the caller owes. Accepts any duration, including zero
    /// and negative ones.
    fn wait(&self, duration: Duration) -> Pause;

    /// Waits until `deadline` under the provider's own semantics: a no-op
    /// when `deadline` is at or before `now()`, and otherwise a `wait` for
    /// the remaining span.
    fn wait_until(&self, deadline: Instant) -> Pause;

    /// Whether this is a virtual-clock provider. Pure; no side effects.
    fn is_test(&self) -> bool;
}

/// A provider of either kind, chosen once at construction: the closed union
/// behind which all downstream consumers see one capability set.
pub enum SharedTimeProvider {
    /// The real clock.
    System(SystemTimeProvider),
    /// A shared virtual clock.
    Test(TestTimeProvider),
}

impl SharedTimeProvider {
    /// The provider's current instant.
    pub fn now(&self) -> (r: Instant) {
        match self {
            SharedTimeProvider::System(p) => p.now(),
            SharedTimeProvider::Test(p) => p.now(),
        }
    }

    /// Performs the clock-side effects of waiting for `duration` and returns
    /// the suspension the caller owes: a sleep on the real clock, a single
    /// yield on a virtual one.
    pub fn wait(&self, duration: Duration) -> (p: Pause)
        ensures
            self is Test ==> p == Pause::Yield,
            self is System ==> p == (if duration.micros >= 0 {
                Pause::Sleep(duration.micros as u64)
            } else {
                Pause::NoOp
            }),
    {
        match self {
            SharedTimeProvider::System(p) => p.wait(duration),
            SharedTimeProvider::Test(p) => p.wait(duration),
        }
    }

    /// Waits until `deadline` under the provider's own semantics.
    pub fn wait_until(&self, deadline: Instant) -> (p: Pause)
        ensures
            self is Test ==> !(p is Sleep),
            self is System ==> !(p is Yield),
            p matches Pause::Sleep(m) ==> m > 0,
    {
        match self {
            SharedTimeProvider::System(p) => p.wait_until(deadline),
            SharedTimeProvider::Test(p) => p.wait_until(deadline),
        }
    }

    /// Whether the provider's clock is virtual.
    pub fn is_test(&self) -> (r: bool)
        ensures
            r == (self is Test),
    {
        match self {
            SharedTimeProvider::System(p) => p.is_test(),
            SharedTimeProvider::Test(p) => p.is_test(),
        }
    }
}

impl Clone for SharedTimeProvider {
    /// Duplicates the reference to the clock, never the clock itself: for a
    /// virtual clock, both values then observe and mutate one shared state.
    fn clone(&self) -> (r: SharedTimeProvider)
        ensures
            r is Test <==> self is Test,
            self matches SharedTimeProvider::Test(p) ==> r matches SharedTimeProvider::Test(q)
                && q.clock() == p.clock(),
    {
        match self {
            SharedTimeProvider::System(p) => SharedTimeProvider::System(*p),
            SharedTimeProvider::Test(p) => SharedTimeProvider::Test(p.clone()),
        }
    }
}

} // verus!

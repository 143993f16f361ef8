//! The gated provider: the one type downstream code holds.
//!
//! A [`SafeTimeProvider`] wraps a provider of either kind and gates the
//! mutation operations behind [`SafeTimeProvider::test_control`], which
//! yields a handle exactly when the provider holds a virtual clock — that
//! is, when its selector named one. The gating is structural: a provider
//! built on the real clock holds no virtual clock anywhere, so no cast or further call can
//! manufacture a control handle from it.

use vstd::prelude::*;
use vstd::rwlock::RwLock;

use crate::clock::ClockState;
use crate::config::TimeSource;
use crate::control::TimeControl;
use crate::provider::{Pause, SharedTimeProvider};
use crate::test::{ClockPred, TestTimeProvider};
use crate::time::{Duration, Instant};

verus! {

/// A production-safe time provider: reads and waits for everyone, time
/// mutation only for holders of a virtual clock.
pub struct SafeTimeProvider {
    inner: SharedTimeProvider,
}

impl SafeTimeProvider {
    /// Whether this provider was built on a virtual clock.
    pub closed spec fn is_virtual(self) -> bool {
        self.inner is Test
    }

    /// The virtual clock this provider was built on, when it was built on
    /// one. Two providers with equal clocks observe the same mutations.
    pub closed spec fn virtual_clock(self) -> RwLock<ClockState, ClockPred>
        recommends
            self.is_virtual(),
    {
        self.inner->Test_0.clock()
    }

    /// A provider built on the clock the selector names: the real clock for
    /// [`TimeSource::System`], a fresh virtual clock otherwise.
    pub fn new(source: TimeSource) -> (r: SafeTimeProvider)
        ensures
            r.is_virtual() <==> !(source is System),
    {
        SafeTimeProvider { inner: source.into_provider() }
    }

    /// A provider gated over an existing virtual clock, sharing its state.
    pub fn new_from_test_provider(provider: TestTimeProvider) -> (r: SafeTimeProvider)
        ensures
            r.is_virtual(),
            r.virtual_clock() == provider.clock(),
    {
        SafeTimeProvider { inner: SharedTimeProvider::Test(provider) }
    }

    /// The provider's current instant. Never suspends; never fails.
    pub fn now(&self) -> (r: Instant) {
        self.inner.now()
    }

    /// Performs the clock-side effects of waiting for `duration` and returns
    /// the suspension the caller owes the scheduler: one cooperative yield on
    /// a virtual clock, a timed sleep of the non-negative durations on the
    /// real one.
    pub fn wait(&self, duration: Duration) -> (p: Pause)
        ensures
            self.is_virtual() ==> p == Pause::Yield,
            !self.is_virtual() ==> p == (if duration.micros >= 0 {
                Pause::Sleep(duration.micros as u64)
            } else {
                Pause::NoOp
            }),
    {
        self.inner.wait(duration)
    }

    /// Waits until `deadline` under the wrapped provider's own semantics: a
    /// no-op when the deadline is at or before the clock, else a wait for the
    /// remaining span.
    pub fn wait_until(&self, deadline: Instant) -> (p: Pause)
        ensures
            self.is_virtual() ==> !(p is Sleep),
            !self.is_virtual() ==> !(p is Yield),
            p matches Pause::Sleep(m) ==> m > 0,
    {
        self.inner.wait_until(deadline)
    }

    /// Whether this provider runs on a virtual clock.
    pub fn is_test_mode(&self) -> (r: bool)
        ensures
            r == self.is_virtual(),
    {
        self.inner.is_test()
    }

    /// The control handle for this provider's clock — present exactly when
    /// the provider was built on a virtual clock, and then a handle on that
    /// very clock. This is the sole route to the mutation operations.
    pub fn test_control(&self) -> (r: Option<TimeControl>)
        ensures
            (r is Some) <==> self.is_virtual(),
            r matches Some(c) ==> c.clock() == self.virtual_clock(),
    {
        match &self.inner {
            SharedTimeProvider::Test(p) => Some(TimeControl::new(p.clone())),
            SharedTimeProvider::System(_) => None,
        }
    }
}

impl Clone for SafeTimeProvider {
    /// Duplicates the wrapper and the reference to the clock, never the
    /// clock:
    /// after cloning a virtual-clock provider, both providers observe and
    /// mutate one shared clock, and control handles minted by either are
    /// handles on that clock.
    fn clone(&self) -> (r: SafeTimeProvider)
        ensures
            r.is_virtual() == self.is_virtual(),
            self.is_virtual() ==> r.virtual_clock() == self.virtual_clock(),
    {
        SafeTimeProvider { inner: self.inner.clone() }
    }
}

} // verus!

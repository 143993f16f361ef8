//! The control handle through which tests manipulate a virtual clock.
//!
//! A [`TimeControl`] is obtainable only from a gated provider whose clock is
//! virtual. It is a capability object, not an owner: any number of handles
//! may coexist, and every one of them observes and mutates the same shared
//! clock as the provider that minted it.

use vstd::prelude::*;
use vstd::rwlock::RwLock;

use crate::clock::ClockState;
use crate::test::{ClockPred, TestTimeProvider};
use crate::time::{Duration, Instant};

verus! {

/// A handle that exposes the mutation operations of one virtual clock.
pub struct TimeControl {
    provider: TestTimeProvider,
}

impl TimeControl {
    /// The clock this handle mutates: the same clock as the provider that
    /// minted the handle.
    pub closed spec fn clock(self) -> RwLock<ClockState, ClockPred> {
        self.provider.clock()
    }

    /// A handle on `provider`'s clock.
    pub(crate) fn new(provider: TestTimeProvider) -> (r: TimeControl)
        ensures
            r.clock() == provider.clock(),
    {
        TimeControl { provider }
    }

    /// Moves the clock forward by `duration` (backward, when it is
    /// negative), leaving the wait statistics untouched.
    pub fn advance(&self, duration: Duration) {
        self.provider.advance(duration);
    }

    /// Sets the clock to exactly `time`, leaving the wait statistics
    /// untouched.
    pub fn set(&self, time: Instant) {
        self.provider.set(time);
    }

    /// The cumulative span added by wait calls since creation or the last
    /// reset.
    pub fn total_waited(&self) -> (r: Duration) {
        self.provider.total_waited()
    }

    /// Zeroes both wait statistics, leaving the clock's instant untouched.
    pub fn reset_wait_tracking(&self) {
        self.provider.reset_wait_tracking();
    }

    /// The number of wait calls since creation or the last reset.
    pub fn wait_call_count(&self) -> (r: usize) {
        self.provider.wait_call_count()
    }
}

} // verus!

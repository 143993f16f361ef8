//! The real-clock provider used in production.
//!
//! `now` reads the system clock; `wait` asks the caller to sleep for the
//! given span of wall-clock time when it is non-negative, and is a silent
//! no-op otherwise, so production callers never need to special-case negative
//! durations. The provider holds no state of its own.

use vstd::prelude::*;

use crate::provider::{remaining_until, Pause, TimeProvider};
use crate::time::{Duration, Instant};

verus! {

/// The production time provider: a stateless handle on the system clock.
#[derive(Clone, Copy, Debug)]
pub struct SystemTimeProvider;

/// Reads the system clock as microseconds since the Unix epoch. Relies on
/// chrono's `Utc::now`, which reads the system clock (and aborts should that
/// clock stand before the Unix epoch), and on `DateTime::timestamp_micros`,
/// which converts any date chrono can represent without overflow. The result
/// depends on the machine's clock, so nothing relates it to its callers.
#[verifier::external_body]
pub(crate) fn system_now_micros() -> (r: i64) {
    chrono::Utc::now().timestamp_micros()
}

impl TimeProvider for SystemTimeProvider {
    /// The system clock's current instant.
    fn now(&self) -> (r: Instant) {
        Instant::from_timestamp_micros(system_now_micros())
    }

    /// A non-negative duration becomes a sleep request for exactly that span;
    /// a negative one is a silent no-op. The clock itself is never touched:
    /// real time passes on its own.
    fn wait(&self, duration: Duration) -> (p: Pause)
        ensures
            p == (if duration.micros >= 0 {
                Pause::Sleep(duration.micros as u64)
            } else {
                Pause::NoOp
            }),
    {
        let micros = duration.num_microseconds();
        if micros >= 0 {
            Pause::Sleep(micros as u64)
        } else {
            Pause::NoOp
        }
    }

    /// Reads the clock once, then waits for the remaining span: a no-op when
    /// the deadline is at or before the clock, else a positive sleep.
    fn wait_until(&self, deadline: Instant) -> (p: Pause)
        ensures
            !(p is Yield),
            p matches Pause::Sleep(m) ==> m > 0,
    {
        let now = self.now();
        match remaining_until(now, deadline) {
            Some(d) => self.wait(d),
            None => Pause::NoOp,
        }
    }

    /// The real clock is never a test clock.
    fn is_test(&self) -> (r: bool)
        ensures
            !r,
    {
        false
    }
}

} // verus!

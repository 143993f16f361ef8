//! A time abstraction for code that must behave identically against the real
//! clock and against a fully controllable virtual clock.
//!
//! Production code constructs a [`SafeTimeProvider`] from
//! [`TimeSource::System`] and can only read the clock and request
//! suspensions. Tests construct one from a virtual-clock source and
//! additionally obtain a [`TimeControl`] handle through
//! [`SafeTimeProvider::test_control`], which lets them advance or set the
//! clock and inspect wait statistics. The handle exists exactly when the
//! provider holds a virtual clock, so a production-configured instance has no
//! reachable path to time mutation.
//!
//! Waiting on a virtual clock is additive: it is the waiting task itself that
//! moves the clock, by exactly the waited span, under one lock-guarded
//! critical section. Concurrent waiters therefore always sum — the proofs
//! beside [`ClockState`] make that exact — and "waiting years" completes in
//! microseconds.
//!
//! Time is measured in microseconds since the Unix epoch, carried by the
//! library's own [`Instant`] and [`Duration`] types. All clock arithmetic
//! saturates at the representable range instead of failing, so every
//! operation in this crate is total. Suspension itself is the runtime's
//! business: `wait` and `wait_until` perform every clock-side effect and
//! return a [`Pause`] naming the sleep or yield the caller owes the
//! scheduler.

mod clock;
mod config;
mod control;
mod provider;
mod safe;
mod system;
mod time;

pub use clock::ClockState;
pub use config::TimeSource;
pub use control::TimeControl;
pub use provider::{Pause, SharedTimeProvider, TimeProvider};
pub use safe::SafeTimeProvider;
pub use system::SystemTimeProvider;
pub use test::TestTimeProvider;
pub use time::{Duration, Instant};

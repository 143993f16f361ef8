//! The time-source selector: which clock a provider is built on.
//!
//! A [`TimeSource`] is chosen once, at process or test setup, and is
//! immutable afterward. [`TimeSource::from_settings`] gives the selector
//! described by the two configuration values an operator may set: a source
//! keyword (`"test"` selects a virtual clock; anything else, or nothing, the
//! real one) and an optional RFC 3339 start timestamp for the virtual clock.
//! A malformed timestamp falls back to "virtual clock starting at the current
//! real time" rather than failing construction; the caller owes the operator
//! a diagnostic, and is told so.

use vstd::prelude::*;

use crate::provider::SharedTimeProvider;
use crate::system::SystemTimeProvider;
use crate::test::TestTimeProvider;
use crate::time::{rfc3339_micros, Instant};

verus! {

/// Which clock to build a provider on. Chosen once at construction.
#[derive(Clone, Copy, Debug, PartialEq, Eq, Structural)]
pub enum TimeSource {
    /// The system clock (production).
    System,
    /// A virtual clock starting at the given instant.
    Test(Instant),
    /// A virtual clock starting at the current system time.
    TestNow,
}

/// The selector described by a source keyword and an optional start
/// timestamp, together with whether a diagnostic is owed: the real clock
/// unless the keyword is exactly `test`; with the keyword, the virtual clock
/// at the given start when one parses, at the current time when none is
/// given, and — with a diagnostic owed — at the current time when the given
/// one is malformed.
pub open spec fn settings_choice(source: Option<Seq<char>>, start: Option<Seq<char>>) -> (
    TimeSource,
    bool,
) {
    if source == Some("test"@) {
        match start {
            Some(st) => match rfc3339_micros(st) {
                Some(us) => (TimeSource::Test(Instant { micros: us }), false),
                None => (TimeSource::TestNow, true),
            },
            None => (TimeSource::TestNow, false),
        }
    } else {
        (TimeSource::System, false)
    }
}

impl TimeSource {
    /// The selector described by the configuration values `source` (the
    /// source keyword) and `start` (the start timestamp), with `true` beside
    /// it exactly when `start` was given but malformed and the operator is
    /// owed a diagnostic. Never fails: a malformed timestamp falls back to
    /// the virtual clock at the current time.
    pub fn from_settings(source: Option<&String>, start: Option<&String>) -> (r: (
        TimeSource,
        bool,
    ))
        ensures
            r == settings_choice(
                match source {
                    Some(s) => Some(s@),
                    None => None,
                },
                match start {
                    Some(s) => Some(s@),
                    None => None,
                },
            ),
    {
        let test_keyword: String = "test".to_owned();
        match source {
            Some(s) if *s == test_keyword => match start {
                Some(st) => match Instant::parse_rfc3339(st.as_str()) {
                    Some(instant) => (TimeSource::Test(instant), false),
                    None => (TimeSource::TestNow, true),
                },
                None => (TimeSource::TestNow, false),
            },
            _ => (TimeSource::System, false),
        }
    }

    /// The provider this selector names: the stateless real-clock provider,
    /// or a fresh virtual clock starting at the selected instant.
    pub fn into_provider(self) -> (r: SharedTimeProvider)
        ensures
            (r is System) <==> (self is System),
    {
        match self {
            TimeSource::System => SharedTimeProvider::System(SystemTimeProvider),
            TimeSource::Test(start) => SharedTimeProvider::Test(TestTimeProvider::new(start)),
            TimeSource::TestNow => SharedTimeProvider::Test(TestTimeProvider::new_at_now()),
        }
    }
}

impl Default for TimeSource {
    /// The default source is the system clock: production paths must opt in
    /// to nothing to stay on real time.
    fn default() -> (r: TimeSource)
        ensures
            r is System,
    {
        TimeSource::System
    }
}

} // verus!

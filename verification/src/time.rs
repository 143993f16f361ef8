//! The library's units of time: [`Instant`] and [`Duration`], both measured in
//! microseconds. An `Instant` counts microseconds since the Unix epoch
//! (1970-01-01T00:00:00Z); a `Duration` is a signed span of microseconds.
//!
//! Every arithmetic operation on these types saturates at the bounds of `i64`
//! microseconds, so no operation here can fail or panic.

use vstd::prelude::*;

verus! {

/// Clamps a mathematical integer to the range of `i64`.
pub open spec fn sat_i64(x: int) -> int {
    if x > i64::MAX as int {
        i64::MAX as int
    } else if x < i64::MIN as int {
        i64::MIN as int
    } else {
        x
    }
}

/// Saturating `i64` addition: returns `a + b` clamped to the `i64` range.
pub fn sat_add(a: i64, b: i64) -> (r: i64)
    ensures
        r as int == sat_i64(a + b),
{
    if b >= 0 {
        if a > i64::MAX - b {
            i64::MAX
        } else {
            a + b
        }
    } else {
        if a < i64::MIN - b {
            i64::MIN
        } else {
            a + b
        }
    }
}

/// Saturating `i64` subtraction: returns `a - b` clamped to the `i64` range.
pub fn sat_sub(a: i64, b: i64) -> (r: i64)
    ensures
        r as int == sat_i64(a - b),
{
    if b <= 0 {
        if a > i64::MAX + b {
            i64::MAX
        } else {
            a - b
        }
    } else {
        if a < i64::MIN + b {
            i64::MIN
        } else {
            a - b
        }
    }
}

/// A signed span of time, measured in microseconds. May be negative.
#[derive(Clone, Copy, Debug, PartialEq, Eq, Structural, PartialOrd, Ord, Hash)]
pub struct Duration {
    pub micros: i64,
}

/// A point in time: microseconds since 1970-01-01T00:00:00Z.
#[derive(Clone, Copy, Debug, PartialEq, Eq, Structural, PartialOrd, Ord, Hash)]
pub struct Instant {
    pub micros: i64,
}

/// Saturating multiplication of a count of units by the size of one unit in
/// microseconds, used by the `Duration` constructors.
fn scale_to_micros(count: i64, unit_micros: i64) -> (r: i64)
    requires
        0 < unit_micros,
    ensures
        r as int == sat_i64(count * unit_micros),
{
    proof {
        assert((count as int) * (unit_micros as int) <= (i64::MAX as int) * (i64::MAX as int)
            && (i64::MIN as int) * (i64::MAX as int) <= (count as int) * (unit_micros as int))
            by (nonlinear_arith)
            requires
                i64::MIN as int <= count as int <= i64::MAX as int,
                0 < unit_micros as int <= i64::MAX as int,
        ;
    }
    let wide: i128 = (count as i128) * (unit_micros as i128);
    if wide > i64::MAX as i128 {
        i64::MAX
    } else if wide < i64::MIN as i128 {
        i64::MIN
    } else {
        wide as i64
    }
}

impl Duration {
    /// The zero-length span.
    pub fn zero() -> (r: Duration)
        ensures
            r.micros == 0,
    {
        Duration { micros: 0 }
    }

    /// A span of `micros` microseconds.
    pub fn microseconds(micros: i64) -> (r: Duration)
        ensures
            r.micros == micros,
    {
        Duration { micros }
    }

    /// A span of `ms` milliseconds, clamped to the representable range.
    pub fn milliseconds(ms: i64) -> (r: Duration)
        ensures
            r.micros as int == sat_i64(ms * 1000),
    {
        Duration { micros: scale_to_micros(ms, 1000) }
    }

    /// A span of `secs` seconds, clamped to the representable range.
    pub fn seconds(secs: i64) -> (r: Duration)
        ensures
            r.micros as int == sat_i64(secs * 1_000_000),
    {
        Duration { micros: scale_to_micros(secs, 1_000_000) }
    }

    /// A span of `mins` minutes, clamped to the representable range.
    pub fn minutes(mins: i64) -> (r: Duration)
        ensures
            r.micros as int == sat_i64(mins * 60_000_000),
    {
        Duration { micros: scale_to_micros(mins, 60_000_000) }
    }

    /// A span of `hours` hours, clamped to the representable range.
    pub fn hours(hours: i64) -> (r: Duration)
        ensures
            r.micros as int == sat_i64(hours * 3_600_000_000),
    {
        Duration { micros: scale_to_micros(hours, 3_600_000_000) }
    }

    /// A span of `days` days, clamped to the representable range.
    pub fn days(days: i64) -> (r: Duration)
        ensures
            r.micros as int == sat_i64(days * 86_400_000_000),
    {
        Duration { micros: scale_to_micros(days, 86_400_000_000) }
    }

    /// The span's length in microseconds.
    pub fn num_microseconds(&self) -> (r: i64)
        ensures
            r == self.micros,
    {
        self.micros
    }

    /// Whether the span is negative.
    pub fn is_negative(&self) -> (r: bool)
        ensures
            r == (self.micros < 0),
    {
        self.micros < 0
    }

    /// The sum of two spans, clamped to the representable range.
    pub fn saturating_add(self, other: Duration) -> (r: Duration)
        ensures
            r.micros as int == sat_i64(self.micros + other.micros),
    {
        Duration { micros: sat_add(self.micros, other.micros) }
    }
}

/// The reading of a string as an RFC 3339 timestamp: the instant it denotes,
/// in microseconds since the Unix epoch, or `None` when the string is not a
/// well-formed timestamp. The result depends on the characters alone.
pub uninterp spec fn rfc3339_micros(s: Seq<char>) -> Option<i64>;

/// Relies on chrono's `DateTime::parse_from_rfc3339`, which reads a string as
/// an RFC 3339 timestamp — a pure function of the characters — and on
/// `DateTime::timestamp_micros`, which converts every date in RFC 3339's
/// four-digit years without overflow.
#[verifier::external_body]
fn parse_rfc3339_micros(s: &str) -> (r: Option<i64>)
    ensures
        r == rfc3339_micros(s@),
{
    match chrono::DateTime::parse_from_rfc3339(s) {
        Ok(dt) => Some(dt.timestamp_micros()),
        Err(_) => None,
    }
}

impl Instant {
    /// The instant named by an RFC 3339 timestamp such as
    /// `2024-01-01T00:00:00Z`, or `None` when the string is malformed.
    pub fn parse_rfc3339(s: &str) -> (r: Option<Instant>)
        ensures
            r == (match rfc3339_micros(s@) {
                Some(us) => Some(Instant { micros: us }),
                None => None::<Instant>,
            }),
    {
        match parse_rfc3339_micros(s) {
            Some(us) => Some(Instant { micros: us }),
            None => None,
        }
    }

    /// The instant `micros` microseconds after the Unix epoch.
    pub fn from_timestamp_micros(micros: i64) -> (r: Instant)
        ensures
            r.micros == micros,
    {
        Instant { micros }
    }

    /// Microseconds since the Unix epoch.
    pub fn timestamp_micros(&self) -> (r: i64)
        ensures
            r == self.micros,
    {
        self.micros
    }

    /// The instant `d` later than `self` (earlier, when `d` is negative),
    /// clamped to the representable range.
    pub fn saturating_add(self, d: Duration) -> (r: Instant)
        ensures
            r.micros as int == sat_i64(self.micros + d.micros),
    {
        Instant { micros: sat_add(self.micros, d.micros) }
    }

    /// The span from `earlier` to `self`, clamped to the representable range.
    pub fn signed_duration_since(self, earlier: Instant) -> (r: Duration)
        ensures
            r.micros as int == sat_i64(self.micros - earlier.micros),
    {
        Duration { micros: sat_sub(self.micros, earlier.micros) }
    }
}

} // verus!

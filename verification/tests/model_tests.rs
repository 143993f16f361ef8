use hourglass::{
    ClockState, Duration, Instant, Pause, SafeTimeProvider, SystemTimeProvider, TestTimeProvider,
    TimeProvider, TimeSource,
};

fn instant(s: &str) -> Instant {
    Instant::parse_rfc3339(s).unwrap()
}

#[test]
fn test_duration_constructors_exact() {
    assert_eq!(Duration::zero().num_microseconds(), 0);
    assert_eq!(Duration::microseconds(7).num_microseconds(), 7);
    assert_eq!(Duration::milliseconds(10).num_microseconds(), 10_000);
    assert_eq!(Duration::seconds(2).num_microseconds(), 2_000_000);
    assert_eq!(Duration::minutes(30).num_microseconds(), 1_800_000_000);
    assert_eq!(Duration::hours(3).num_microseconds(), 10_800_000_000);
    assert_eq!(Duration::days(5).num_microseconds(), 432_000_000_000);
    assert_eq!(Duration::seconds(-2).num_microseconds(), -2_000_000);
    assert!(Duration::seconds(-2).is_negative());
    assert!(!Duration::zero().is_negative());
}

#[test]
fn test_duration_saturates_at_bounds() {
    assert_eq!(Duration::days(i64::MAX).num_microseconds(), i64::MAX);
    assert_eq!(Duration::days(i64::MIN).num_microseconds(), i64::MIN);
    let huge = Duration::microseconds(i64::MAX);
    assert_eq!(huge.saturating_add(Duration::microseconds(1)).num_microseconds(), i64::MAX);
    let far = Instant::from_timestamp_micros(i64::MAX);
    assert_eq!(far.saturating_add(Duration::microseconds(1)).timestamp_micros(), i64::MAX);
    let early = Instant::from_timestamp_micros(i64::MIN);
    assert_eq!(far.signed_duration_since(early).num_microseconds(), i64::MAX);
}

#[test]
fn test_parse_rfc3339_exact_values() {
    assert_eq!(instant("1970-01-01T00:00:00Z").timestamp_micros(), 0);
    assert_eq!(instant("1970-01-01T00:00:01Z").timestamp_micros(), 1_000_000);
    assert_eq!(instant("2024-01-01T00:00:00Z").timestamp_micros(), 1_704_067_200_000_000);
    // An offset names the same instant as its UTC rendering
    assert_eq!(
        instant("2024-01-01T01:00:00+01:00"),
        instant("2024-01-01T00:00:00Z")
    );
    // A pre-epoch instant is negative
    assert!(instant("1969-12-31T23:00:00Z").timestamp_micros() < 0);
    assert!(Instant::parse_rfc3339("not-a-timestamp").is_none());
    assert!(Instant::parse_rfc3339("2024-01-01 00:00:00").is_none());
    assert!(Instant::parse_rfc3339("").is_none());
}

#[test]
fn test_clock_state_transitions_exact() {
    let s = ClockState::new(Instant::from_timestamp_micros(1_000));
    assert_eq!(s.now.timestamp_micros(), 1_000);
    assert_eq!(s.total_waited.num_microseconds(), 0);
    assert_eq!(s.wait_call_count, 0);

    let s = s.after_wait(Duration::microseconds(500));
    assert_eq!(s.now.timestamp_micros(), 1_500);
    assert_eq!(s.total_waited.num_microseconds(), 500);
    assert_eq!(s.wait_call_count, 1);

    let s = s.after_advance(Duration::microseconds(200));
    assert_eq!(s.now.timestamp_micros(), 1_700);
    assert_eq!(s.total_waited.num_microseconds(), 500);
    assert_eq!(s.wait_call_count, 1);

    let s = s.after_set(Instant::from_timestamp_micros(42));
    assert_eq!(s.now.timestamp_micros(), 42);
    assert_eq!(s.total_waited.num_microseconds(), 500);
    assert_eq!(s.wait_call_count, 1);

    let s = s.after_reset();
    assert_eq!(s.now.timestamp_micros(), 42);
    assert_eq!(s.total_waited.num_microseconds(), 0);
    assert_eq!(s.wait_call_count, 0);
}

#[test]
fn test_two_waits_accumulate_from_fixed_start() {
    // Virtual clock at 2024-01-01T00:00:00Z; wait 1h then 2h
    let provider = TestTimeProvider::new(instant("2024-01-01T00:00:00Z"));
    provider.wait(Duration::hours(1));
    provider.wait(Duration::hours(2));
    assert_eq!(provider.now(), instant("2024-01-01T03:00:00Z"));
    assert_eq!(provider.total_waited(), Duration::hours(3));
    assert_eq!(provider.wait_call_count(), 2);
}

#[test]
fn test_wait_until_past_leaves_statistics() {
    // Virtual clock at 2024-01-01T00:00:00Z; wait_until a past deadline
    let provider = TestTimeProvider::new(instant("2024-01-01T00:00:00Z"));
    let pause = provider.wait_until(instant("2023-12-31T23:00:00Z"));
    assert_eq!(pause, Pause::NoOp);
    assert_eq!(provider.now(), instant("2024-01-01T00:00:00Z"));
    assert_eq!(provider.wait_call_count(), 0);
    assert_eq!(provider.total_waited(), Duration::zero());
}

#[test]
fn test_reset_keeps_advanced_clock() {
    // wait(5h) then reset: statistics zeroed, the 5h advance kept
    let provider = TestTimeProvider::new(instant("2024-01-01T00:00:00Z"));
    provider.wait(Duration::hours(5));
    provider.reset_wait_tracking();
    assert_eq!(provider.total_waited(), Duration::zero());
    assert_eq!(provider.wait_call_count(), 0);
    assert_eq!(provider.now(), instant("2024-01-01T05:00:00Z"));
}

#[test]
fn test_negative_wait_moves_clock_backward() {
    // A negative duration is accepted and moves the virtual clock backward,
    // counting as a wait call
    let provider = TestTimeProvider::new(instant("2024-01-01T03:00:00Z"));
    let pause = provider.wait(Duration::hours(-3));
    assert_eq!(pause, Pause::Yield);
    assert_eq!(provider.now(), instant("2024-01-01T00:00:00Z"));
    assert_eq!(provider.total_waited(), Duration::hours(-3));
    assert_eq!(provider.wait_call_count(), 1);
}

#[test]
fn test_system_wait_requests_exact_sleep() {
    let provider = SystemTimeProvider;
    assert_eq!(provider.wait(Duration::milliseconds(100)), Pause::Sleep(100_000));
    assert_eq!(provider.wait(Duration::zero()), Pause::Sleep(0));
    // A negative duration is a silent no-op
    assert_eq!(provider.wait(Duration::milliseconds(-5)), Pause::NoOp);
}

#[test]
fn test_system_wait_until_past_is_noop() {
    let provider = SystemTimeProvider;
    // A deadline far in the past asks for no sleep at all
    assert_eq!(provider.wait_until(instant("1970-01-01T00:00:00Z")), Pause::NoOp);
}

#[test]
fn test_virtual_wait_yields_once() {
    let provider = TestTimeProvider::new(instant("2024-01-01T00:00:00Z"));
    assert_eq!(provider.wait(Duration::days(365)), Pause::Yield);
    assert_eq!(provider.wait_until(instant("2026-01-01T00:00:00Z")), Pause::Yield);
}

#[test]
fn test_clone_control_moves_shared_clock() {
    // A control handle minted by a clone mutates the clock the first
    // provider observes
    let provider = SafeTimeProvider::new(TimeSource::Test(instant("2024-01-01T00:00:00Z")));
    let cloned = provider.clone();
    let control = cloned.test_control().unwrap();
    control.advance(Duration::days(5));
    assert_eq!(provider.now(), instant("2024-01-06T00:00:00Z"));
}

#[test]
fn test_source_unset_selects_system() {
    let (source, diagnostic) = TimeSource::from_settings(None, None);
    assert!(!diagnostic);
    assert_eq!(source, TimeSource::System);
    // A start timestamp without the test keyword is ignored
    let start_setting = String::from("2024-01-01T00:00:00Z");
    let (source, diagnostic) = TimeSource::from_settings(None, Some(&start_setting));
    assert!(!diagnostic);
    assert_eq!(source, TimeSource::System);
}

#[test]
fn test_into_provider_matches_selector() {
    let provider = TimeSource::System.into_provider();
    assert!(!provider.is_test());
    let provider = TimeSource::Test(instant("2024-01-01T00:00:00Z")).into_provider();
    assert!(provider.is_test());
    assert_eq!(provider.now(), instant("2024-01-01T00:00:00Z"));
    let provider = TimeSource::TestNow.into_provider();
    assert!(provider.is_test());
}

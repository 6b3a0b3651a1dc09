use kodiak_server::cadence::{
    clamp_tick, missed_ratio, tps_window_closes, MAX_TICK_NANOS, MISSED_TICKS_WINDOW_NANOS,
    NANOS_PER_SEC,
};
use kodiak_server::{ConfigError, TickPeriod};

fn period(nanos: i64) -> TickPeriod {
    match TickPeriod::new(nanos) {
        Ok(period) => period,
        Err(_) => panic!("a positive period was turned down"),
    }
}

#[test]
fn constants_are_in_nanoseconds() {
    assert_eq!(NANOS_PER_SEC, 1_000_000_000);
    assert_eq!(MAX_TICK_NANOS, 10 * NANOS_PER_SEC);
    assert_eq!(MISSED_TICKS_WINDOW_NANOS, 30 * NANOS_PER_SEC);
}

#[test]
fn tick_period_accepts_positive() {
    assert_eq!(period(1).nanos(), 1);
    assert_eq!(period(100_000_000).nanos(), 100_000_000);
    assert_eq!(period(i64::MAX).nanos(), i64::MAX as u64);
}

#[test]
fn tick_period_rejects_zero() {
    assert_eq!(TickPeriod::new(0).err(), Some(ConfigError::TickPeriodNotPositive));
}

#[test]
fn tick_period_rejects_negative() {
    assert_eq!(TickPeriod::new(-1).err(), Some(ConfigError::TickPeriodNotPositive));
    assert_eq!(TickPeriod::new(i64::MIN).err(), Some(ConfigError::TickPeriodNotPositive));
}

#[test]
fn clamp_tick_keeps_durations_in_range() {
    assert_eq!(clamp_tick(0), 0);
    assert_eq!(clamp_tick(100_000_000), 100_000_000);
    assert_eq!(clamp_tick(10_000_000_000), 10_000_000_000);
}

#[test]
fn clamp_tick_fifteen_seconds_is_ten() {
    assert_eq!(clamp_tick(15_000_000_000), 10_000_000_000);
    assert_eq!(clamp_tick(10_000_000_001), 10_000_000_000);
    assert_eq!(clamp_tick(i64::MAX), 10_000_000_000);
}

#[test]
fn clamp_tick_minus_three_seconds_is_zero() {
    assert_eq!(clamp_tick(-3_000_000_000), 0);
    assert_eq!(clamp_tick(-1), 0);
    assert_eq!(clamp_tick(i64::MIN), 0);
}

#[test]
fn tps_window_closes_within_half_a_period_of_the_second() {
    let tenth = period(100_000_000);
    assert!(!tps_window_closes(0, tenth));
    assert!(!tps_window_closes(900_000_000, tenth));
    assert!(!tps_window_closes(949_999_999, tenth));
    assert!(tps_window_closes(950_000_000, tenth));
    assert!(tps_window_closes(1_000_000_000, tenth));
    assert!(tps_window_closes(u64::MAX, tenth));
}

#[test]
fn tps_window_tolerance_counts_half_nanoseconds() {
    let odd = period(3);
    assert!(!tps_window_closes(999_999_998, odd));
    assert!(tps_window_closes(999_999_999, odd));
}

#[test]
fn tps_window_always_closes_for_periods_of_two_seconds() {
    assert!(tps_window_closes(0, period(2_000_000_000)));
    assert!(!tps_window_closes(0, period(1_999_999_999)));
    assert!(tps_window_closes(1, period(1_999_999_999)));
    assert!(tps_window_closes(0, period(i64::MAX)));
}

#[test]
fn missed_ratio_is_the_share_of_scheduled_ticks() {
    let tenth = period(100_000_000);
    assert_eq!(missed_ratio(30_000_000_000, 250, tenth).ppm(), 166_666);
    assert_eq!(missed_ratio(30_000_000_001, 250, tenth).ppm(), 166_666);
    assert_eq!(missed_ratio(30_100_000_000, 250, tenth).ppm(), 169_435);
    assert_eq!(missed_ratio(30_000_000_000, 0, tenth).ppm(), 1_000_000);
    assert_eq!(missed_ratio(30_000_000_000, 150, tenth).ppm(), 500_000);
}

#[test]
fn missed_ratio_is_zero_when_no_tick_was_missed() {
    let tenth = period(100_000_000);
    assert_eq!(missed_ratio(30_000_000_000, 300, tenth).ppm(), 0);
    assert_eq!(missed_ratio(30_000_000_000, 301, tenth).ppm(), 0);
    assert_eq!(missed_ratio(30_000_000_000, u64::MAX, tenth).ppm(), 0);
    assert_eq!(missed_ratio(u64::MAX, u64::MAX, period(i64::MAX)).ppm(), 0);
}

#[test]
fn missed_ratio_of_an_empty_window_is_zero() {
    assert_eq!(missed_ratio(0, 0, period(100_000_000)).ppm(), 0);
}

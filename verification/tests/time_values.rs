use livesplit_core::time::time_span::{TICKS_PER_MILLISECOND, TICKS_PER_SECOND};
use livesplit_core::time::{Time, TimeSpan, TimingMethod};

#[test]
fn zero_is_the_additive_identity() {
    for ticks in [i64::MIN, -5, 0, 1, 595_000_000, i64::MAX] {
        let x = TimeSpan::from_ticks(ticks);
        assert_eq!(TimeSpan::zero() + x, x);
        assert_eq!(x + TimeSpan::zero(), x);
        assert_eq!(x - TimeSpan::zero(), x);
    }
}

#[test]
fn spans_are_ordered_as_their_ticks() {
    let a = TimeSpan::from_milliseconds(-1);
    let b = TimeSpan::zero();
    let c = TimeSpan::from_seconds(2);
    assert!(a < b && b < c && a < c);
    assert!(c > a);
    assert!(b <= TimeSpan::from_ticks(0) && b >= TimeSpan::from_ticks(0));
    assert_eq!(b, TimeSpan::from_ticks(0));
    assert!(!(a > b) && !(a == b));
}

#[test]
fn constructors_count_in_ticks() {
    assert_eq!(TimeSpan::from_seconds(3).total_ticks(), 3 * TICKS_PER_SECOND);
    assert_eq!(TimeSpan::from_milliseconds(59_500).total_ticks(), 595_000_000);
    assert_eq!(TimeSpan::from_milliseconds(-2).total_ticks(), -2 * TICKS_PER_MILLISECOND);
    assert_eq!(TimeSpan::from_ticks(7).total_ticks(), 7);
}

#[test]
fn arithmetic_adds_subtracts_and_negates() {
    let a = TimeSpan::from_seconds(5);
    let b = TimeSpan::from_seconds(7);
    assert_eq!(a + b, TimeSpan::from_seconds(12));
    assert_eq!(a - b, TimeSpan::from_seconds(-2));
    assert_eq!(-a, TimeSpan::from_seconds(-5));
    assert_eq!(-(-a), a);
}

#[test]
fn arithmetic_stops_at_the_bounds() {
    let top = TimeSpan::from_ticks(i64::MAX);
    let bottom = TimeSpan::from_ticks(i64::MIN);
    let one = TimeSpan::from_ticks(1);
    assert_eq!(top + one, top);
    assert_eq!(bottom - one, bottom);
    assert_eq!(bottom + (-one), bottom);
    assert_eq!(top - (-one), top);
    assert_eq!(-bottom, top);
    assert_eq!(TimeSpan::from_seconds(i64::MAX), top);
    assert_eq!(TimeSpan::from_seconds(i64::MIN), bottom);
    assert_eq!(TimeSpan::from_milliseconds(i64::MAX / 2), top);
}

#[test]
fn magnitude_drops_the_sign() {
    assert_eq!(TimeSpan::from_ticks(-12).magnitude(), 12);
    assert_eq!(TimeSpan::from_ticks(12).magnitude(), 12);
    assert_eq!(TimeSpan::from_ticks(i64::MIN).magnitude(), 1u64 << 63);
    assert!(TimeSpan::from_ticks(-1).is_negative());
    assert!(!TimeSpan::zero().is_negative());
}

#[test]
fn absent_entries_are_not_zero() {
    let empty = Time::new();
    assert_eq!(empty.real_time, None);
    assert_eq!(empty.game_time, None);
    assert_ne!(empty, Time::zero());
    assert_eq!(Time::default(), empty);
    assert_eq!(Time::zero().real_time, Some(TimeSpan::zero()));
}

#[test]
fn entries_are_read_by_method_with_fallbacks() {
    let real = TimeSpan::from_seconds(10);
    let time = Time::new().with_real_time(Some(real));
    assert_eq!(time.get(TimingMethod::RealTime), Some(real));
    assert_eq!(time.get(TimingMethod::GameTime), None);
    assert_eq!(time.get_or_real_time(TimingMethod::GameTime), Some(real));
    assert_eq!(time.get_or(TimingMethod::GameTime, TimeSpan::zero()), TimeSpan::zero());
    let game = TimeSpan::from_seconds(8);
    let both = time.with_game_time(Some(game));
    assert_eq!(both.get_or_real_time(TimingMethod::GameTime), Some(game));
    assert_eq!(both.get_or(TimingMethod::GameTime, TimeSpan::zero()), game);
    assert_eq!(Time::new().get_or_real_time(TimingMethod::GameTime), None);
}

#[test]
fn set_replaces_one_entry() {
    let mut time = Time::zero();
    time.set(TimingMethod::GameTime, None);
    assert_eq!(time.game_time, None);
    assert_eq!(time.real_time, Some(TimeSpan::zero()));
    time.set(TimingMethod::RealTime, Some(TimeSpan::from_seconds(1)));
    assert_eq!(time.real_time, Some(TimeSpan::from_seconds(1)));
}

#[test]
fn bundles_add_and_subtract_entry_by_entry() {
    let a = Time::new().with_real_time(Some(TimeSpan::from_seconds(5)));
    let b = Time::zero().with_real_time(Some(TimeSpan::from_seconds(2)));
    assert_eq!(a.plus(b), Time::new().with_real_time(Some(TimeSpan::from_seconds(7))));
    assert_eq!(a.minus(b), Time::new().with_real_time(Some(TimeSpan::from_seconds(3))));
    assert_eq!(b.minus(b), Time::zero());
}

#[test]
fn whole_units_round_towards_zero() {
    assert_eq!(TimeSpan::from_milliseconds(59_500).whole_seconds(), 59);
    assert_eq!(TimeSpan::from_milliseconds(-59_500).whole_seconds(), -59);
    assert_eq!(TimeSpan::from_ticks(19_999).whole_milliseconds(), 1);
    assert_eq!(TimeSpan::from_ticks(-19_999).whole_milliseconds(), -1);
    assert_eq!(TimeSpan::zero().whole_seconds(), 0);
}

use livesplit_core::time::formatter::timer::{Fraction, Time};
use livesplit_core::time::formatter::{Accuracy, Complete, Days, Delta, DigitsFormat, Regular};
use livesplit_core::time::TimeSpan;

fn ticks(days: i64, hours: i64, minutes: i64, seconds: i64, fraction: i64) -> TimeSpan {
    TimeSpan::from_ticks(
        (((days * 24 + hours) * 60 + minutes) * 60 + seconds) * 10_000_000 + fraction,
    )
}

#[test]
fn complete_writes_an_absent_duration_as_zeros() {
    assert_eq!(Complete::new().format(None).to_string(), "00:00:00.0000000");
    assert_eq!(Complete.format(Some(TimeSpan::zero())).to_string(), "00:00:00.0000000");
}

#[test]
fn complete_writes_all_fields() {
    let formatter = Complete::new();
    assert_eq!(formatter.format(Some(ticks(0, 1, 2, 3, 4_567_891))).to_string(), "01:02:03.4567891");
    assert_eq!(
        formatter.format(Some(TimeSpan::from_milliseconds(59_500))).to_string(),
        "00:00:59.5000000"
    );
    assert_eq!(formatter.format(Some(ticks(0, 23, 59, 59, 9_999_999))).to_string(), "23:59:59.9999999");
}

#[test]
fn complete_puts_an_ascii_minus_before_the_hours() {
    let text = Complete::new().format(Some(TimeSpan::from_milliseconds(-1_500))).to_string();
    assert_eq!(text, "-00:00:01.5000000");
    assert_eq!(text.as_bytes()[0], 0x2d);
    assert!(text.is_ascii());
}

#[test]
fn complete_shows_days_only_from_one_day_on() {
    let formatter = Complete::new();
    assert_eq!(formatter.format(Some(ticks(0, 23, 0, 0, 0))).to_string(), "23:00:00.0000000");
    assert_eq!(formatter.format(Some(ticks(1, 0, 0, 0, 0))).to_string(), "1.00:00:00.0000000");
    assert_eq!(formatter.format(Some(ticks(12, 3, 4, 5, 6))).to_string(), "12.03:04:05.0000006");
    assert_eq!(formatter.format(Some(-ticks(2, 1, 0, 0, 0))).to_string(), "-2.01:00:00.0000000");
}

#[test]
fn complete_writes_the_bounds() {
    let formatter = Complete::new();
    assert_eq!(
        formatter.format(Some(TimeSpan::from_ticks(i64::MAX))).to_string(),
        "10675199.02:48:05.4775807"
    );
    assert_eq!(
        formatter.format(Some(TimeSpan::from_ticks(i64::MIN))).to_string(),
        "-10675199.02:48:05.4775808"
    );
}

#[test]
fn clock_shows_the_fields_of_its_digits_format() {
    let zero = Some(TimeSpan::zero());
    let cases = [
        (DigitsFormat::SingleDigitSeconds, "0"),
        (DigitsFormat::DoubleDigitSeconds, "00"),
        (DigitsFormat::SingleDigitMinutes, "0:00"),
        (DigitsFormat::DoubleDigitMinutes, "00:00"),
        (DigitsFormat::SingleDigitHours, "0:00:00"),
        (DigitsFormat::DoubleDigitHours, "00:00:00"),
    ];
    for (digits_format, expected) in cases {
        let formatter = Time::with_digits_format(digits_format);
        assert_eq!(formatter.format(zero), expected);
        assert_eq!(formatter.format(None), expected);
    }
}

#[test]
fn clock_grows_with_the_duration() {
    let formatter = Time::new();
    assert_eq!(formatter.format(Some(ticks(0, 0, 0, 9, 9_000_000))), "9");
    assert_eq!(formatter.format(Some(ticks(0, 0, 0, 12, 0))), "12");
    assert_eq!(formatter.format(Some(ticks(0, 0, 5, 7, 0))), "5:07");
    assert_eq!(formatter.format(Some(ticks(0, 2, 5, 7, 0))), "2:05:07");
    assert_eq!(formatter.format(Some(ticks(4, 4, 5, 7, 0))), "100:05:07");
    assert_eq!(formatter.format(Some(-ticks(0, 0, 1, 2, 0))), "-1:02");
    let padded = Time::with_digits_format(DigitsFormat::DoubleDigitMinutes);
    assert_eq!(padded.format(Some(ticks(0, 0, 5, 7, 0))), "05:07");
    assert_eq!(padded.format(Some(ticks(0, 1, 5, 7, 0))), "1:05:07");
    let hours = Time::with_digits_format(DigitsFormat::DoubleDigitHours);
    assert_eq!(hours.format(Some(ticks(0, 1, 5, 7, 0))), "01:05:07");
}

#[test]
fn fraction_cuts_off_at_its_accuracy() {
    let time = Some(ticks(0, 0, 0, 1, 2_389_999));
    assert_eq!(Fraction::with_accuracy(Accuracy::Seconds).format(time), "");
    assert_eq!(Fraction::with_accuracy(Accuracy::Tenths).format(time), ".2");
    assert_eq!(Fraction::with_accuracy(Accuracy::Hundredths).format(time), ".23");
    assert_eq!(Fraction::new().format(time), ".23");
    assert_eq!(Fraction::new().format(None), ".00");
    assert_eq!(Fraction::with_accuracy(Accuracy::Tenths).format(None), ".0");
    assert_eq!(Fraction::new().format(Some(-ticks(0, 0, 0, 1, 500_000))), ".05");
}

#[test]
fn regular_writes_minutes_and_seconds() {
    assert_eq!(Regular::new().format(None), "0:00.00");
    assert_eq!(Regular::new().format(Some(ticks(0, 0, 1, 2, 3_400_000))), "1:02.34");
    assert_eq!(Regular::new().format(Some(ticks(0, 3, 1, 2, 0))), "3:01:02.00");
    assert_eq!(Regular::new().format(Some(ticks(2, 3, 1, 2, 0))), "51:01:02.00");
    assert_eq!(Regular::with_accuracy(Accuracy::Seconds).format(Some(ticks(0, 0, 0, 59, 9_999_999))), "0:59");
    assert_eq!(Regular::with_accuracy(Accuracy::Tenths).format(Some(-ticks(0, 0, 0, 5, 0))), "-0:05.0");
}

#[test]
fn days_counts_the_days_apart() {
    assert_eq!(Days::new().format(None), "0:00");
    assert_eq!(Days::new().format(Some(ticks(0, 0, 1, 2, 9_999_999))), "1:02");
    assert_eq!(Days::new().format(Some(ticks(0, 5, 1, 2, 0))), "5:01:02");
    assert_eq!(Days::new().format(Some(ticks(3, 5, 1, 2, 0))), "3.05:01:02");
    assert_eq!(Days::new().format(Some(-ticks(1, 0, 0, 0, 0))), "-1.00:00:00");
}

#[test]
fn delta_always_writes_its_sign() {
    assert_eq!(Delta::new().format(None), "-");
    assert_eq!(Delta::new().format(Some(TimeSpan::zero())), "+0.0");
    assert_eq!(Delta::new().format(Some(ticks(0, 0, 0, 1, 2_900_000))), "+1.2");
    assert_eq!(Delta::new().format(Some(-ticks(0, 0, 0, 1, 2_900_000))), "-1.2");
    assert_eq!(Delta::new().format(Some(ticks(0, 0, 3, 5, 0))), "+3:05.0");
    assert_eq!(Delta::new().format(Some(-ticks(1, 2, 3, 5, 0))), "-26:03:05.0");
    assert_eq!(Delta::with_accuracy(Accuracy::Seconds).format(Some(ticks(0, 0, 0, 59, 9_999_999))), "+59");
    assert_eq!(Delta::with_accuracy(Accuracy::Hundredths).format(Some(-ticks(0, 0, 0, 0, 500_000))), "-0.05");
}

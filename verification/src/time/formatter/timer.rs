//! The two formatters of a digital clock: one for the hours, minutes and
//! seconds, one for the decimal places that follow them.

use super::{
    decimal, fraction_text, hours_of, magnitude_of, minutes_of, or_zero, padded, push_fraction,
    push_padded, push_sign, seconds_of, sign_text, Accuracy, DigitsFormat,
};
use crate::time::time_span::{TimeSpan, TICKS_PER_HOUR, TICKS_PER_MINUTE, TICKS_PER_SECOND};
use vstd::prelude::*;

verus! {

/// Writes the hours, minutes and seconds of a duration, with as many fields
/// as the duration needs and at least those that the digits format asks for.
pub struct Time {
    /// The digits that are shown at least.
    pub digits_format: DigitsFormat,
}

/// Writes the decimal places of the seconds of a duration.
pub struct Fraction {
    /// The decimal places that are shown.
    pub accuracy: Accuracy,
}

/// The hours, minutes and seconds of a duration of `ticks` ticks under
/// `digits_format`. A field is shown where it is not zero, where the digits
/// format asks for it, and where a field before it is shown; a field that
/// follows another one takes two digits.
pub open spec fn fields_text(digits_format: DigitsFormat, ticks: nat) -> Seq<char> {
    let hours = hours_of(ticks);
    let minutes = minutes_of(ticks) % 60;
    let seconds = seconds_of(ticks) % 60;
    if digits_format == DigitsFormat::DoubleDigitHours {
        padded(hours, 2) + seq![':'] + padded(minutes, 2) + seq![':'] + padded(seconds, 2)
    } else if hours > 0 || digits_format == DigitsFormat::SingleDigitHours {
        decimal(hours) + seq![':'] + padded(minutes, 2) + seq![':'] + padded(seconds, 2)
    } else if digits_format == DigitsFormat::DoubleDigitMinutes {
        padded(minutes, 2) + seq![':'] + padded(seconds, 2)
    } else if minutes > 0 || digits_format == DigitsFormat::SingleDigitMinutes {
        decimal(minutes) + seq![':'] + padded(seconds, 2)
    } else if digits_format == DigitsFormat::DoubleDigitSeconds {
        padded(seconds, 2)
    } else {
        decimal(seconds)
    }
}

/// The text that the clock formatter gives for `time` under `digits_format`.
pub open spec fn time_text(digits_format: DigitsFormat, time: Option<TimeSpan>) -> Seq<char> {
    let ticks = or_zero(time).ticks as int;
    sign_text(ticks) + fields_text(digits_format, magnitude_of(ticks))
}

/// A duration before zero is written as an ASCII minus sign followed by the
/// text of the duration of the same length after zero.
pub proof fn lemma_time_text_of_negative(digits_format: DigitsFormat, span: TimeSpan)
    requires
        i64::MIN < span.ticks < 0,
    ensures
        time_text(digits_format, Some(span)) == seq!['-'] + time_text(digits_format, Some(span.negated())),
        time_text(digits_format, Some(span))[0] == '-',
{
    assert(time_text(digits_format, Some(span)) =~= seq!['-'] + time_text(digits_format, Some(span.negated())));
}

impl Time {
    /// The clock formatter that shows at least one digit of seconds.
    pub fn new() -> (result: Time)
        ensures
            result.digits_format == DigitsFormat::SingleDigitSeconds,
    {
        Time { digits_format: DigitsFormat::SingleDigitSeconds }
    }

    /// The clock formatter that shows at least the digits of `digits_format`.
    pub fn with_digits_format(digits_format: DigitsFormat) -> (result: Time)
        ensures
            result.digits_format == digits_format,
    {
        Time { digits_format }
    }

    /// The hours, minutes and seconds of `time`; an absent duration is
    /// written as zero.
    pub fn format(&self, time: Option<TimeSpan>) -> (result: String)
        ensures
            result@ == time_text(self.digits_format, time),
    {
        let span = match time {
            Some(span) => span,
            None => TimeSpan::zero(),
        };
        let mut text = String::new();
        push_sign(&mut text, span);
        let total: u64 = span.magnitude();
        let hours: u64 = total / (TICKS_PER_HOUR as u64);
        let minutes: u64 = (total / (TICKS_PER_MINUTE as u64)) % 60;
        let seconds: u64 = (total / (TICKS_PER_SECOND as u64)) % 60;
        let two_digit_hours = matches!(self.digits_format, DigitsFormat::DoubleDigitHours);
        let one_digit_hours = matches!(self.digits_format, DigitsFormat::SingleDigitHours);
        let two_digit_minutes = matches!(self.digits_format, DigitsFormat::DoubleDigitMinutes);
        let one_digit_minutes = matches!(self.digits_format, DigitsFormat::SingleDigitMinutes);
        let two_digit_seconds = matches!(self.digits_format, DigitsFormat::DoubleDigitSeconds);
        if two_digit_hours || hours > 0 || one_digit_hours {
            push_padded(&mut text, hours, if two_digit_hours { 2 } else { 1 });
            text.push(':');
            push_padded(&mut text, minutes, 2);
            text.push(':');
            push_padded(&mut text, seconds, 2);
        } else if two_digit_minutes || minutes > 0 || one_digit_minutes {
            push_padded(&mut text, minutes, if two_digit_minutes { 2 } else { 1 });
            text.push(':');
            push_padded(&mut text, seconds, 2);
        } else {
            push_padded(&mut text, seconds, if two_digit_seconds { 2 } else { 1 });
        }
        assert(text@ =~= time_text(self.digits_format, time));
        text
    }
}

impl Fraction {
    /// The fraction formatter that shows two decimal places.
    pub fn new() -> (result: Fraction)
        ensures
            result.accuracy == Accuracy::Hundredths,
    {
        Fraction { accuracy: Accuracy::Hundredths }
    }

    /// The fraction formatter that shows the decimal places of `accuracy`.
    pub fn with_accuracy(accuracy: Accuracy) -> (result: Fraction)
        ensures
            result.accuracy == accuracy,
    {
        Fraction { accuracy }
    }

    /// The decimal places of `time` with the dot before them, without a
    /// sign; an absent duration is written as zero.
    pub fn format(&self, time: Option<TimeSpan>) -> (result: String)
        ensures
            result@ == fraction_text(self.accuracy, magnitude_of(or_zero(time).ticks as int)),
    {
        let span = match time {
            Some(span) => span,
            None => TimeSpan::zero(),
        };
        let mut text = String::new();
        push_fraction(&mut text, self.accuracy, span.magnitude());
        assert(text@ =~= fraction_text(self.accuracy, magnitude_of(or_zero(time).ticks as int)));
        text
    }
}

} // verus!

//! The formatter for durations in running text: minutes and seconds with
//! decimal places, and hours where there are any.

use super::{
    decimal, fraction_text, hours_of, magnitude_of, minutes_of, or_zero, padded, push_decimal,
    push_fraction, push_padded, push_sign, seconds_of, sign_text, Accuracy,
};
use crate::time::time_span::{TimeSpan, TICKS_PER_HOUR, TICKS_PER_MINUTE, TICKS_PER_SECOND};
use vstd::prelude::*;

verus! {

/// Writes a duration as `[-][H:M]M:SS[.FF]`: the hours, uncapped, only where
/// there is at least one.
pub struct Regular {
    /// The decimal places that are shown.
    pub accuracy: Accuracy,
}

/// The text that the regular formatter gives for `time` under `accuracy`.
pub open spec fn regular_text(accuracy: Accuracy, time: Option<TimeSpan>) -> Seq<char> {
    let ticks = or_zero(time).ticks as int;
    let length = magnitude_of(ticks);
    let hours = hours_of(length);
    let minutes = minutes_of(length) % 60;
    let seconds = seconds_of(length) % 60;
    let leading = if hours > 0 {
        decimal(hours) + seq![':'] + padded(minutes, 2)
    } else {
        decimal(minutes)
    };
    sign_text(ticks) + leading + seq![':'] + padded(seconds, 2) + fraction_text(accuracy, length)
}

/// A duration before zero is written as an ASCII minus sign followed by the
/// text of the duration of the same length after zero.
pub proof fn lemma_regular_text_of_negative(accuracy: Accuracy, span: TimeSpan)
    requires
        i64::MIN < span.ticks < 0,
    ensures
        regular_text(accuracy, Some(span)) == seq!['-'] + regular_text(accuracy, Some(span.negated())),
        regular_text(accuracy, Some(span))[0] == '-',
{
    assert(regular_text(accuracy, Some(span)) =~= seq!['-'] + regular_text(accuracy, Some(span.negated())));
}

impl Regular {
    /// The regular formatter that shows two decimal places.
    pub fn new() -> (result: Regular)
        ensures
            result.accuracy == Accuracy::Hundredths,
    {
        Regular { accuracy: Accuracy::Hundredths }
    }

    /// The regular formatter that shows the decimal places of `accuracy`.
    pub fn with_accuracy(accuracy: Accuracy) -> (result: Regular)
        ensures
            result.accuracy == accuracy,
    {
        Regular { accuracy }
    }

    /// The text of `time`; an absent duration is written as zero.
    pub fn format(&self, time: Option<TimeSpan>) -> (result: String)
        ensures
            result@ == regular_text(self.accuracy, time),
    {
        let span = match time {
            Some(span) => span,
            None => TimeSpan::zero(),
        };
        let mut text = String::new();
        push_sign(&mut text, span);
        let total: u64 = span.magnitude();
        let hours: u64 = total / (TICKS_PER_HOUR as u64);
        let minutes: u64 = (total / (TICKS_PER_MINUTE as u64)) % 60;
        let seconds: u64 = (total / (TICKS_PER_SECOND as u64)) % 60;
        if hours > 0 {
            push_decimal(&mut text, hours);
            text.push(':');
            push_padded(&mut text, minutes, 2);
        } else {
            push_decimal(&mut text, minutes);
        }
        text.push(':');
        push_padded(&mut text, seconds, 2);
        push_fraction(&mut text, self.accuracy, total);
        assert(text@ =~= regular_text(self.accuracy, time));
        text
    }
}

} // verus!

//! The formatter for long durations: whole seconds, with the days counted
//! apart from the hours.

use super::{
    days_of, decimal, hours_of, magnitude_of, minutes_of, or_zero, padded, push_decimal,
    push_padded, push_sign, seconds_of, sign_text,
};
use crate::time::time_span::{
    TimeSpan, TICKS_PER_DAY, TICKS_PER_HOUR, TICKS_PER_MINUTE, TICKS_PER_SECOND,
};
use vstd::prelude::*;

verus! {

/// Writes a duration in whole seconds as `[-][D.][H:M]M:SS`: the days and a
/// dot only from one day on, the hours only from one hour on.
pub struct Days;

/// The text that the days formatter gives for `time`.
pub open spec fn days_text(time: Option<TimeSpan>) -> Seq<char> {
    let ticks = or_zero(time).ticks as int;
    let length = magnitude_of(ticks);
    let days = days_of(length);
    let hours = hours_of(length) % 24;
    let minutes = minutes_of(length) % 60;
    let seconds = seconds_of(length) % 60;
    let leading = if days > 0 {
        decimal(days) + seq!['.'] + padded(hours, 2) + seq![':'] + padded(minutes, 2)
    } else if hours > 0 {
        decimal(hours) + seq![':'] + padded(minutes, 2)
    } else {
        decimal(minutes)
    };
    sign_text(ticks) + leading + seq![':'] + padded(seconds, 2)
}

/// A duration before zero is written as an ASCII minus sign followed by the
/// text of the duration of the same length after zero.
pub proof fn lemma_days_text_of_negative(span: TimeSpan)
    requires
        i64::MIN < span.ticks < 0,
    ensures
        days_text(Some(span)) == seq!['-'] + days_text(Some(span.negated())),
        days_text(Some(span))[0] == '-',
{
    assert(days_text(Some(span)) =~= seq!['-'] + days_text(Some(span.negated())));
}

impl Days {
    /// The days formatter.
    pub fn new() -> (result: Days) {
        Days
    }

    /// The text of `time`; an absent duration is written as zero.
    pub fn format(&self, time: Option<TimeSpan>) -> (result: String)
        ensures
            result@ == days_text(time),
    {
        let span = match time {
            Some(span) => span,
            None => TimeSpan::zero(),
        };
        let mut text = String::new();
        push_sign(&mut text, span);
        let total: u64 = span.magnitude();
        let days: u64 = total / (TICKS_PER_DAY as u64);
        let hours: u64 = (total / (TICKS_PER_HOUR as u64)) % 24;
        let minutes: u64 = (total / (TICKS_PER_MINUTE as u64)) % 60;
        let seconds: u64 = (total / (TICKS_PER_SECOND as u64)) % 60;
        if days > 0 {
            push_decimal(&mut text, days);
            text.push('.');
            push_padded(&mut text, hours, 2);
            text.push(':');
            push_padded(&mut text, minutes, 2);
        } else if hours > 0 {
            push_decimal(&mut text, hours);
            text.push(':');
            push_padded(&mut text, minutes, 2);
        } else {
            push_decimal(&mut text, minutes);
        }
        text.push(':');
        push_padded(&mut text, seconds, 2);
        assert(text@ =~= days_text(time));
        text
    }
}

} // verus!

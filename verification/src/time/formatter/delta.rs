//! The formatter for differences between two times.

use super::{
    decimal, fraction_text, hours_of, magnitude_of, minutes_of, padded, push_decimal,
    push_fraction, push_padded, seconds_of, Accuracy, ASCII_MINUS,
};
use crate::time::time_span::{TimeSpan, TICKS_PER_HOUR, TICKS_PER_MINUTE, TICKS_PER_SECOND};
use vstd::prelude::*;

verus! {

/// The sign that starts the text of a difference at or after zero.
pub const ASCII_PLUS: char = '+';

/// Writes a difference as `+[[H:]M:]S[.F]` or `-[[H:]M:]S[.F]`: always with
/// its sign, the minutes only from one minute on, the hours only from one
/// hour on. An absent difference is written as a single `-`.
pub struct Delta {
    /// The decimal places that are shown.
    pub accuracy: Accuracy,
}

/// The text that the delta formatter gives for `time` under `accuracy`.
pub open spec fn delta_text(accuracy: Accuracy, time: Option<TimeSpan>) -> Seq<char> {
    match time {
        None => seq![ASCII_MINUS],
        Some(span) => {
            let length = magnitude_of(span.ticks as int);
            let hours = hours_of(length);
            let minutes = minutes_of(length) % 60;
            let seconds = seconds_of(length) % 60;
            let sign = if span.ticks < 0 {
                seq![ASCII_MINUS]
            } else {
                seq![ASCII_PLUS]
            };
            let fields = if hours > 0 {
                decimal(hours) + seq![':'] + padded(minutes, 2) + seq![':'] + padded(seconds, 2)
            } else if minutes > 0 {
                decimal(minutes) + seq![':'] + padded(seconds, 2)
            } else {
                decimal(seconds)
            };
            sign + fields + fraction_text(accuracy, length)
        },
    }
}

impl Delta {
    /// The delta formatter that shows one decimal place.
    pub fn new() -> (result: Delta)
        ensures
            result.accuracy == Accuracy::Tenths,
    {
        Delta { accuracy: Accuracy::Tenths }
    }

    /// The delta formatter that shows the decimal places of `accuracy`.
    pub fn with_accuracy(accuracy: Accuracy) -> (result: Delta)
        ensures
            result.accuracy == accuracy,
    {
        Delta { accuracy }
    }

    /// The text of the difference `time`.
    pub fn format(&self, time: Option<TimeSpan>) -> (result: String)
        ensures
            result@ == delta_text(self.accuracy, time),
    {
        let mut text = String::new();
        let span = match time {
            Some(span) => span,
            None => {
                text.push(ASCII_MINUS);
                assert(text@ =~= delta_text(self.accuracy, time));
                return text;
            },
        };
        if span.is_negative() {
            text.push(ASCII_MINUS);
        } else {
            text.push(ASCII_PLUS);
        }
        let total: u64 = span.magnitude();
        let hours: u64 = total / (TICKS_PER_HOUR as u64);
        let minutes: u64 = (total / (TICKS_PER_MINUTE as u64)) % 60;
        let seconds: u64 = (total / (TICKS_PER_SECOND as u64)) % 60;
        if hours > 0 {
            push_decimal(&mut text, hours);
            text.push(':');
            push_padded(&mut text, minutes, 2);
            text.push(':');
            push_padded(&mut text, seconds, 2);
        } else if minutes > 0 {
            push_decimal(&mut text, minutes);
            text.push(':');
            push_padded(&mut text, seconds, 2);
        } else {
            push_decimal(&mut text, seconds);
        }
        push_fraction(&mut text, self.accuracy, total);
        assert(text@ =~= delta_text(self.accuracy, time));
        text
    }
}

} // verus!

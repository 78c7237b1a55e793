//! The formatter that writes a duration out in full, as splits files hold it.

use super::{
    days_of, decimal, fraction_of, hours_of, lemma_padded_len, magnitude_of, minutes_of, padded,
    push_decimal, push_padded, seconds_of, sign_text, ASCII_MINUS,
};
use crate::text::lemma_pow10_values;
use crate::time::time_span::{
    TimeSpan, TICKS_PER_DAY, TICKS_PER_HOUR, TICKS_PER_MINUTE, TICKS_PER_SECOND,
};
use vstd::prelude::*;

verus! {

/// A duration that is about to be written out in full.
pub struct Inner(pub Option<TimeSpan>);

/// The formatter that writes a duration out in full: days where there are
/// any, then hours, minutes and seconds with seven decimal places.
pub struct Complete;

/// Hours, minutes, seconds and the seven decimal places of a duration of
/// `ticks` ticks, without its whole days: always sixteen characters.
pub open spec fn clock_text(ticks: nat) -> Seq<char> {
    padded(hours_of(ticks) % 24, 2) + seq![':'] + padded(minutes_of(ticks) % 60, 2) + seq![':']
        + padded(seconds_of(ticks) % 60, 2) + seq!['.'] + padded(fraction_of(ticks), 7)
}

/// The text of a duration of `ticks` ticks that is not before zero: the whole
/// days and a dot where there is at least one day, then the clock text.
pub open spec fn unsigned_text(ticks: nat) -> Seq<char> {
    if days_of(ticks) > 0 {
        decimal(days_of(ticks)) + seq!['.'] + clock_text(ticks)
    } else {
        clock_text(ticks)
    }
}

/// The text that the complete formatter gives for `time`.
pub open spec fn complete_text(time: Option<TimeSpan>) -> Seq<char> {
    match time {
        None => "00:00:00.0000000"@,
        Some(span) => if span.ticks < 0 {
            seq![ASCII_MINUS] + unsigned_text(magnitude_of(span.ticks as int))
        } else {
            unsigned_text(magnitude_of(span.ticks as int))
        },
    }
}

/// The clock text always has sixteen characters, with the colons and the dot
/// at fixed places.
pub proof fn lemma_clock_text_shape(ticks: nat)
    ensures
        clock_text(ticks).len() == 16,
        clock_text(ticks)[2] == ':',
        clock_text(ticks)[5] == ':',
        clock_text(ticks)[8] == '.',
{
    lemma_pow10_values();
    lemma_padded_len(hours_of(ticks) % 24, 2);
    lemma_padded_len(minutes_of(ticks) % 60, 2);
    lemma_padded_len(seconds_of(ticks) % 60, 2);
    lemma_padded_len(fraction_of(ticks), 7);
}

/// A duration before zero is written as an ASCII minus sign followed by the
/// text of the duration of the same length after zero. Below one day the
/// sign therefore stands immediately before the hours.
pub proof fn lemma_negative_starts_with_ascii_minus(span: TimeSpan)
    requires
        span.ticks < 0,
    ensures
        complete_text(Some(span))[0] == '-',
        '-' as u32 == 0x2d,
        complete_text(Some(span)) == seq!['-'] + unsigned_text(magnitude_of(span.ticks as int)),
        span.ticks > i64::MIN ==> complete_text(Some(span)) == seq!['-'] + complete_text(
            Some(span.negated()),
        ),
        magnitude_of(span.ticks as int) < TICKS_PER_DAY ==> complete_text(Some(span)) == seq!['-']
            + clock_text(magnitude_of(span.ticks as int)),
{
}

/// The whole days and a dot come before the hours exactly when the duration
/// spans at least one day; a shorter duration is written as its clock text
/// alone, behind its sign.
pub proof fn lemma_day_prefix_only_from_one_day(span: TimeSpan)
    ensures
        magnitude_of(span.ticks as int) < TICKS_PER_DAY ==> complete_text(Some(span)) == sign_text(
            span.ticks as int,
        ) + clock_text(magnitude_of(span.ticks as int)),
        magnitude_of(span.ticks as int) >= TICKS_PER_DAY ==> days_of(
            magnitude_of(span.ticks as int),
        ) > 0 && complete_text(Some(span)) == sign_text(span.ticks as int) + (decimal(
            days_of(magnitude_of(span.ticks as int)),
        ) + seq!['.'] + clock_text(magnitude_of(span.ticks as int))),
{
    let length = magnitude_of(span.ticks as int);
    assert(complete_text(Some(span)) =~= sign_text(span.ticks as int) + unsigned_text(length));
    if length >= TICKS_PER_DAY {
        assert(days_of(length) > 0);
    } else {
        assert(days_of(length) == 0);
    }
}

impl Complete {
    /// The complete formatter.
    pub fn new() -> (result: Complete) {
        Complete
    }

    /// Takes `time` for writing; an absent duration is accepted.
    pub fn format(&self, time: Option<TimeSpan>) -> (result: Inner)
        ensures
            result.0 == time,
    {
        Inner(time)
    }
}

impl Inner {
    /// The text of the duration: `[-][D.]HH:MM:SS.FFFFFFF`, and
    /// `00:00:00.0000000` for an absent one.
    pub fn to_string(&self) -> (result: String)
        ensures
            result@ == complete_text(self.0),
            self.0 is None ==> result@ == "00:00:00.0000000"@,
    {
        match self.0 {
            None => "00:00:00.0000000".to_owned(),
            Some(span) => {
                let mut text = String::new();
                if span.is_negative() {
                    text.push(ASCII_MINUS);
                }
                let total: u64 = span.magnitude();
                let days: u64 = total / (TICKS_PER_DAY as u64);
                let hours: u64 = (total / (TICKS_PER_HOUR as u64)) % 24;
                let minutes: u64 = (total / (TICKS_PER_MINUTE as u64)) % 60;
                let seconds: u64 = (total / (TICKS_PER_SECOND as u64)) % 60;
                let fraction: u64 = total % (TICKS_PER_SECOND as u64);
                if days > 0 {
                    push_decimal(&mut text, days);
                    text.push('.');
                }
                push_padded(&mut text, hours, 2);
                text.push(':');
                push_padded(&mut text, minutes, 2);
                text.push(':');
                push_padded(&mut text, seconds, 2);
                text.push('.');
                push_padded(&mut text, fraction, 7);
                assert(text@ =~= complete_text(self.0));
                text
            },
        }
    }
}

} // verus!

//! Renders durations as text.
//!
//! All formatters share the same rules: a duration before zero starts with an
//! ASCII minus sign, hours and minutes that follow another field take two
//! digits, and an absent duration has a fixed text of zeros.

pub mod complete;
pub mod days;
pub mod delta;
pub mod regular;
pub mod timer;

pub use self::complete::Complete;
pub use self::days::Days;
pub use self::delta::Delta;
pub use self::regular::Regular;

use crate::text::{all_digits, digit, is_digit, lemma_digit_has_its_value, number, pow10};
use crate::time::time_span::{
    TimeSpan, TICKS_PER_DAY, TICKS_PER_HOUR, TICKS_PER_MINUTE, TICKS_PER_SECOND,
};
use vstd::prelude::*;

verus! {

/// The sign that starts the text of a duration before zero.
pub const ASCII_MINUS: char = '-';

/// How many decimal places of the seconds are shown.
#[derive(Clone, Copy, Debug, PartialEq, Eq, Structural, Hash)]
pub enum Accuracy {
    /// Whole seconds only.
    Seconds,
    /// One decimal place.
    Tenths,
    /// Two decimal places.
    Hundredths,
}

/// How many digits are shown at least; a duration too short to fill them
/// gets zeros in their place.
#[derive(Clone, Copy, Debug, PartialEq, Eq, Structural, Hash)]
pub enum DigitsFormat {
    /// At least one digit of seconds.
    SingleDigitSeconds,
    /// At least two digits of seconds.
    DoubleDigitSeconds,
    /// At least one digit of minutes.
    SingleDigitMinutes,
    /// At least two digits of minutes.
    DoubleDigitMinutes,
    /// At least one digit of hours.
    SingleDigitHours,
    /// At least two digits of hours.
    DoubleDigitHours,
}

/// The decimal digits of `n`, filled up with leading zeros to at least
/// `width` characters.
pub open spec fn padded(n: nat, width: nat) -> Seq<char>
    decreases n, width,
{
    if n < 10 && width <= 1 {
        seq![digit(n as int)]
    } else {
        padded(n / 10, if width > 0 { (width - 1) as nat } else { 0 }).push(digit((n % 10) as int))
    }
}

/// The decimal digits of `n` without leading zeros.
pub open spec fn decimal(n: nat) -> Seq<char> {
    padded(n, 1)
}

/// What is written can be read back: the digits written for a number are
/// digits, and the number that they write in base ten is that number.
pub proof fn lemma_padded_reads_back(n: nat, width: nat)
    ensures
        all_digits(padded(n, width)),
        number(padded(n, width)) == n,
    decreases n, width,
{
    lemma_digit_has_its_value((n % 10) as int);
    let text = padded(n, width);
    if n < 10 && width <= 1 {
        assert(text.last() == digit(n as int));
        assert(text.drop_last() =~= Seq::<char>::empty());
        assert(number(text.drop_last()) == 0);
    } else {
        let rest = padded(n / 10, if width > 0 { (width - 1) as nat } else { 0 });
        lemma_padded_reads_back(n / 10, if width > 0 { (width - 1) as nat } else { 0 });
        assert(text.last() == digit((n % 10) as int));
        assert(text.drop_last() =~= rest);
        assert forall|i: int| 0 <= i < text.len() implies is_digit(#[trigger] text[i]) by {
            if i < rest.len() {
                assert(text[i] == rest[i]);
            }
        }
    }
}

/// A number with at most `width` digits is written in exactly `width`
/// characters.
pub proof fn lemma_padded_len(n: nat, width: nat)
    requires
        width >= 1,
        n < pow10(width),
    ensures
        padded(n, width).len() == width,
    decreases width,
{
    if width > 1 {
        assert(pow10(width) == 10 * pow10((width - 1) as nat));
        lemma_padded_len(n / 10, (width - 1) as nat);
    } else {
        assert(pow10(1) == 10 * pow10(0));
    }
}

/// The whole days in a duration of `ticks` ticks.
pub open spec fn days_of(ticks: nat) -> nat {
    ticks / (TICKS_PER_DAY as nat)
}

/// The whole hours in a duration of `ticks` ticks.
pub open spec fn hours_of(ticks: nat) -> nat {
    ticks / (TICKS_PER_HOUR as nat)
}

/// The whole minutes in a duration of `ticks` ticks.
pub open spec fn minutes_of(ticks: nat) -> nat {
    ticks / (TICKS_PER_MINUTE as nat)
}

/// The whole seconds in a duration of `ticks` ticks.
pub open spec fn seconds_of(ticks: nat) -> nat {
    ticks / (TICKS_PER_SECOND as nat)
}

/// The ticks of a duration of `ticks` ticks beyond its last whole second.
pub open spec fn fraction_of(ticks: nat) -> nat {
    ticks % (TICKS_PER_SECOND as nat)
}

/// The length without sign of a duration of `ticks` ticks.
pub open spec fn magnitude_of(ticks: int) -> nat {
    if ticks < 0 {
        (-ticks) as nat
    } else {
        ticks as nat
    }
}

/// The sign of a duration of `ticks` ticks: an ASCII minus before zero,
/// nothing else.
pub open spec fn sign_text(ticks: int) -> Seq<char> {
    if ticks < 0 {
        seq![ASCII_MINUS]
    } else {
        Seq::empty()
    }
}

/// The decimal places that `accuracy` shows of a duration of `ticks` ticks,
/// with the dot before them; digits beyond them are cut off.
pub open spec fn fraction_text(accuracy: Accuracy, ticks: nat) -> Seq<char> {
    match accuracy {
        Accuracy::Seconds => Seq::empty(),
        Accuracy::Tenths => seq!['.'] + padded((ticks / 1_000_000) % 10, 1),
        Accuracy::Hundredths => seq!['.'] + padded((ticks / 100_000) % 100, 2),
    }
}

/// The duration that stands in for an absent one: every formatter but the
/// complete one writes an absent duration as it writes zero.
pub open spec fn or_zero(time: Option<TimeSpan>) -> TimeSpan {
    match time {
        Some(span) => span,
        None => TimeSpan::zero(),
    }
}

/// Appends the decimal places that `accuracy` shows of a duration of `ticks`
/// ticks.
pub fn push_fraction(text: &mut String, accuracy: Accuracy, ticks: u64)
    ensures
        final(text)@ == old(text)@ + fraction_text(accuracy, ticks as nat),
{
    match accuracy {
        Accuracy::Seconds => {
            assert(text@ =~= old(text)@ + fraction_text(accuracy, ticks as nat));
        },
        Accuracy::Tenths => {
            text.push('.');
            push_padded(text, (ticks / 1_000_000) % 10, 1);
            assert(text@ =~= old(text)@ + fraction_text(accuracy, ticks as nat));
        },
        Accuracy::Hundredths => {
            text.push('.');
            push_padded(text, (ticks / 100_000) % 100, 2);
            assert(text@ =~= old(text)@ + fraction_text(accuracy, ticks as nat));
        },
    }
}

/// Appends the sign of `span`.
pub fn push_sign(text: &mut String, span: TimeSpan)
    ensures
        final(text)@ == old(text)@ + sign_text(span.ticks as int),
{
    if span.is_negative() {
        text.push(ASCII_MINUS);
    }
    assert(text@ =~= old(text)@ + sign_text(span.ticks as int));
}

/// The character of the decimal digit `d`.
pub fn digit_char(d: u64) -> (result: char)
    requires
        d < 10,
    ensures
        result == digit(d as int),
{
    if d == 0 {
        '0'
    } else if d == 1 {
        '1'
    } else if d == 2 {
        '2'
    } else if d == 3 {
        '3'
    } else if d == 4 {
        '4'
    } else if d == 5 {
        '5'
    } else if d == 6 {
        '6'
    } else if d == 7 {
        '7'
    } else if d == 8 {
        '8'
    } else {
        '9'
    }
}

/// Appends the decimal digits of `n`, filled up with leading zeros to at
/// least `width` characters.
pub fn push_padded(text: &mut String, n: u64, width: u32)
    ensures
        final(text)@ == old(text)@ + padded(n as nat, width as nat),
    decreases n, width,
{
    if n < 10 && width <= 1 {
        text.push(digit_char(n));
        assert(text@ =~= old(text)@ + padded(n as nat, width as nat));
    } else {
        let rest: u32 = if width > 0 {
            width - 1
        } else {
            0
        };
        push_padded(text, n / 10, rest);
        text.push(digit_char(n % 10));
        assert(text@ =~= old(text)@ + padded(n as nat, width as nat));
    }
}

/// Appends the decimal digits of `n` without leading zeros.
pub fn push_decimal(text: &mut String, n: u64)
    ensures
        final(text)@ == old(text)@ + decimal(n as nat),
{
    push_padded(text, n, 1);
}

} // verus!

//! The bundle of one optional duration per timing method.

use super::time_span::TimeSpan;
use super::timing_method::TimingMethod;
use vstd::prelude::*;

verus! {

/// One optional duration for each timing method.
///
/// An absent entry means that nothing was recorded; it is distinct from a
/// recorded duration of zero and is never turned into one silently.
#[derive(Clone, Copy, Debug, PartialEq, Eq, Structural, Hash)]
pub struct Time {
    /// The duration in real time, if recorded.
    pub real_time: Option<TimeSpan>,
    /// The duration in game time, if recorded.
    pub game_time: Option<TimeSpan>,
}

/// `left` combined with `right` by `+`, absent as soon as one of them is.
pub open spec fn option_add(left: Option<TimeSpan>, right: Option<TimeSpan>) -> Option<TimeSpan> {
    match (left, right) {
        (Some(a), Some(b)) => Some(a.plus(b)),
        _ => None,
    }
}

/// `left` combined with `right` by `-`, absent as soon as one of them is.
pub open spec fn option_sub(left: Option<TimeSpan>, right: Option<TimeSpan>) -> Option<TimeSpan> {
    match (left, right) {
        (Some(a), Some(b)) => Some(a.minus(b)),
        _ => None,
    }
}

impl Time {
    /// The bundle with no entry, as a specification value.
    pub open spec fn spec_new() -> Time {
        Time { real_time: None, game_time: None }
    }

    /// The entry for `method`, as a specification value.
    pub open spec fn spec_get(self, method: TimingMethod) -> Option<TimeSpan> {
        match method {
            TimingMethod::RealTime => self.real_time,
            TimingMethod::GameTime => self.game_time,
        }
    }

    /// Whether no entry is recorded.
    pub open spec fn is_absent(self) -> bool {
        self.real_time is None && self.game_time is None
    }

    /// The bundle with no entry.
    #[verifier::when_used_as_spec(spec_new)]
    pub fn new() -> (result: Time)
        ensures
            result == Self::spec_new(),
    {
        Time { real_time: None, game_time: None }
    }

    /// The bundle that records a duration of zero for both methods.
    pub fn zero() -> (result: Time)
        ensures
            result.real_time == Some(TimeSpan::zero()),
            result.game_time == Some(TimeSpan::zero()),
    {
        Time { real_time: Some(TimeSpan::zero()), game_time: Some(TimeSpan::zero()) }
    }

    /// The same bundle with `real_time` as its real-time entry.
    pub fn with_real_time(self, real_time: Option<TimeSpan>) -> (result: Time)
        ensures
            result.real_time == real_time,
            result.game_time == self.game_time,
    {
        Time { real_time, game_time: self.game_time }
    }

    /// The same bundle with `game_time` as its game-time entry.
    pub fn with_game_time(self, game_time: Option<TimeSpan>) -> (result: Time)
        ensures
            result.real_time == self.real_time,
            result.game_time == game_time,
    {
        Time { real_time: self.real_time, game_time }
    }

    /// The entry for `method`.
    #[verifier::when_used_as_spec(spec_get)]
    pub fn get(self, method: TimingMethod) -> (result: Option<TimeSpan>)
        ensures
            result == self.spec_get(method),
    {
        match method {
            TimingMethod::RealTime => self.real_time,
            TimingMethod::GameTime => self.game_time,
        }
    }

    /// Replaces the entry for `method` by `value` and leaves the other one.
    pub fn set(&mut self, method: TimingMethod, value: Option<TimeSpan>)
        ensures
            final(self).spec_get(method) == value,
            forall|other: TimingMethod|
                other != method ==> final(self).spec_get(other) == old(self).spec_get(other),
    {
        match method {
            TimingMethod::RealTime => {
                self.real_time = value;
            },
            TimingMethod::GameTime => {
                self.game_time = value;
            },
        }
    }

    /// The entry for `method`, or `fallback` where nothing is recorded for it.
    pub fn get_or(self, method: TimingMethod, fallback: TimeSpan) -> (result: TimeSpan)
        ensures
            result == match self.spec_get(method) {
                Some(span) => span,
                None => fallback,
            },
    {
        match self.get(method) {
            Some(span) => span,
            None => fallback,
        }
    }

    /// The entry for `method`, or the real-time entry where nothing is
    /// recorded for it.
    pub fn get_or_real_time(self, method: TimingMethod) -> (result: Option<TimeSpan>)
        ensures
            result == match self.spec_get(method) {
                Some(span) => Some(span),
                None => self.real_time,
            },
    {
        match self.get(method) {
            Some(span) => Some(span),
            None => self.real_time,
        }
    }

    /// The sum, method by method; an entry is absent as soon as it is absent
    /// on one side.
    pub fn plus(self, other: Time) -> (result: Time)
        ensures
            result.real_time == option_add(self.real_time, other.real_time),
            result.game_time == option_add(self.game_time, other.game_time),
    {
        Time {
            real_time: add_entries(self.real_time, other.real_time),
            game_time: add_entries(self.game_time, other.game_time),
        }
    }

    /// The difference, method by method; an entry is absent as soon as it is
    /// absent on one side.
    pub fn minus(self, other: Time) -> (result: Time)
        ensures
            result.real_time == option_sub(self.real_time, other.real_time),
            result.game_time == option_sub(self.game_time, other.game_time),
    {
        Time {
            real_time: sub_entries(self.real_time, other.real_time),
            game_time: sub_entries(self.game_time, other.game_time),
        }
    }
}

/// The sum of two entries, absent as soon as one of them is.
pub fn add_entries(left: Option<TimeSpan>, right: Option<TimeSpan>) -> (result: Option<TimeSpan>)
    ensures
        result == option_add(left, right),
{
    match (left, right) {
        (Some(a), Some(b)) => Some(a + b),
        _ => None,
    }
}

/// The difference of two entries, absent as soon as one of them is.
pub fn sub_entries(left: Option<TimeSpan>, right: Option<TimeSpan>) -> (result: Option<TimeSpan>)
    ensures
        result == option_sub(left, right),
{
    match (left, right) {
        (Some(a), Some(b)) => Some(a - b),
        _ => None,
    }
}

impl Default for Time {
    /// The bundle with no entry.
    fn default() -> (result: Time)
        ensures
            result == Time::spec_new(),
    {
        Time { real_time: None, game_time: None }
    }
}

} // verus!

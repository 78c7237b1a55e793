//! One entry of the attempt history.

use crate::time::{Time, TimeSpan};
use vstd::prelude::*;

verus! {

/// One attempt on a run, as the history keeps it.
#[derive(Clone, Copy, Debug, PartialEq, Eq, Structural)]
pub struct Attempt {
    /// The number of the attempt, counted from one.
    pub index: u32,
    /// The final time of the attempt; absent where it was reset before the
    /// last segment.
    pub time: Time,
    /// How long the attempt lasted on the clock, from its start to its last
    /// split or its reset, whichever ended it.
    pub duration: TimeSpan,
}

impl Attempt {
    /// The attempt with the given number, final time and duration.
    pub fn new(index: u32, time: Time, duration: TimeSpan) -> (result: Attempt)
        ensures
            result.index == index,
            result.time == time,
            result.duration == duration,
    {
        Attempt { index, time, duration }
    }
}

} // verus!

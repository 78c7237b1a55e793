//! Adds up the time that went into a category.

use crate::time::TimeSpan;
use crate::timing::timer::{total_duration, Timer, TimerView};
use crate::timing::timer_phase::TimerPhase;
use vstd::prelude::*;

verus! {

/// The time spent on the category of the run of `timer`: the durations of
/// all attempts of the history, whether they were finished or reset, and of
/// the attempt in progress, if there is one.
pub fn calculate(timer: &Timer) -> (result: TimeSpan)
    ensures
        result == timer@.total_playtime(),
{
    let history = timer.run().attempt_history();
    let mut total = TimeSpan::zero();
    let mut at: usize = 0;
    while at < history.len()
        invariant
            at <= history@.len(),
            history@ == timer@.run.attempt_history,
            total == total_duration(history@.take(at as int)),
        decreases history@.len() - at,
    {
        proof {
            assert(history@.take(at + 1).drop_last() =~= history@.take(at as int));
            assert(history@.take(at + 1).last() == history@[at as int]);
        }
        total = total + history[at].duration;
        at += 1;
    }
    assert(history@.take(at as int) =~= history@);
    total + timer.current_attempt_duration()
}

/// An attempt in progress counts the same before and after it goes into the
/// history: resetting with the attempt kept leaves the total unchanged.
pub proof fn lemma_kept_attempt_keeps_the_total(timer: TimerView)
    ensures
        timer.reset(true).total_playtime() == timer.total_playtime(),
{
    if timer.phase != TimerPhase::NotRunning {
        let history = timer.run.attempt_history;
        let after = history.push(timer.attempt());
        assert(after.drop_last() =~= history);
        assert(after.last() == timer.attempt());
        assert(total_duration(after) == total_duration(history).plus(timer.attempt_duration()));
    }
}

/// A timer that is not running adds nothing to the total: it is the sum of
/// the history alone.
pub proof fn lemma_idle_timer_adds_nothing(timer: TimerView)
    requires
        timer.phase == TimerPhase::NotRunning,
    ensures
        timer.total_playtime() == total_duration(timer.run.attempt_history),
{
}

/// An attempt that is dropped at its reset leaves no trace in the total.
pub proof fn lemma_dropped_attempt_leaves_the_history(timer: TimerView)
    ensures
        timer.reset(false).total_playtime() == total_duration(timer.run.attempt_history),
{
}

} // verus!

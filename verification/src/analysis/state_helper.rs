//! Classifies the time of an attempt against a comparison.

use crate::settings::semantic_color::SemanticColor;
use crate::time::{TimeSpan, TimingMethod};
use crate::timing::timer::{Timer, TimerView};
use vstd::prelude::*;

verus! {

/// How far the attempt was from the comparison `comparison` at the latest
/// split up to the segment at `index` for which both the attempt and the
/// comparison have a time: the split time less the time of the comparison.
/// Nothing where there is no such split, or no such segment.
pub open spec fn last_delta_of(
    timer: TimerView,
    index: int,
    comparison: Seq<char>,
    method: TimingMethod,
) -> Option<TimeSpan>
    decreases index + 1,
{
    if index < 0 || index >= timer.run.segments.len() || index >= timer.split_times.len() {
        None
    } else {
        let compared = timer.run.segments[index].comparison(comparison).spec_get(method);
        let split = timer.split_times[index].spec_get(method);
        if compared is Some && split is Some {
            Some(split->0.minus(compared->0))
        } else {
            last_delta_of(timer, index - 1, comparison, method)
        }
    }
}

/// How much time the attempt gained or lost against the comparison on the
/// segment at `index` alone: how far it was from the comparison at the end
/// of the segment, less how far it was at the latest split before. Nothing
/// where the attempt or the comparison has no time for the segment.
pub open spec fn segment_delta_of(
    timer: TimerView,
    index: int,
    comparison: Seq<char>,
    method: TimingMethod,
) -> Option<TimeSpan> {
    if index < 0 || index >= timer.run.segments.len() || index >= timer.split_times.len() {
        None
    } else {
        let compared = timer.run.segments[index].comparison(comparison).spec_get(method);
        let split = timer.split_times[index].spec_get(method);
        if compared is Some && split is Some {
            Some(
                split->0.minus(compared->0).minus(
                    match last_delta_of(timer, index - 1, comparison, method) {
                        Some(delta) => delta,
                        None => TimeSpan::zero(),
                    },
                ),
            )
        } else {
            None
        }
    }
}

/// The latest split time of the attempt before the segment at `index`; zero
/// where no segment before it has one.
pub open spec fn split_time_before(timer: TimerView, index: int, method: TimingMethod) -> TimeSpan
    decreases index,
{
    if index <= 0 || index > timer.split_times.len() {
        TimeSpan::zero()
    } else {
        let split = timer.split_times[index - 1].spec_get(method);
        if split is Some {
            split->0
        } else {
            split_time_before(timer, index - 1, method)
        }
    }
}

/// Whether the attempt ran the segment at `index` faster than ever before:
/// the segment has a split time, and the time from the split before it is
/// below the best segment time, or there is no best segment time yet.
pub open spec fn is_best_segment(timer: TimerView, index: int, method: TimingMethod) -> bool {
    &&& 0 <= index < timer.run.segments.len()
    &&& index < timer.split_times.len()
    &&& match timer.split_times[index].spec_get(method) {
        None => false,
        Some(split) => match timer.run.segments[index].best_segment_time.spec_get(method) {
            None => true,
            Some(best) => split.minus(split_time_before(timer, index, method)).ticks < best.ticks,
        },
    }
}

/// The classification of a time that is `time_difference` away from the
/// comparison at the segment at `split_number`.
///
/// A best segment comes first, where best segments are shown. Without a
/// difference nothing is said. Otherwise the sign of the difference decides
/// between ahead, before zero, and behind. The trend is read against the
/// difference at the latest split before, where segment deltas are shown and
/// there is such a split: ahead but less so is losing time, behind but less
/// so is gaining time. Without it ahead counts as gaining and behind as
/// losing.
pub open spec fn split_color_of(
    timer: TimerView,
    time_difference: Option<TimeSpan>,
    split_number: int,
    show_segment_deltas: bool,
    show_best_segments: bool,
    comparison: Seq<char>,
    method: TimingMethod,
) -> SemanticColor {
    if show_best_segments && is_best_segment(timer, split_number, method) {
        SemanticColor::BestSegment
    } else {
        match time_difference {
            None => SemanticColor::Default,
            Some(difference) => {
                let before = if show_segment_deltas {
                    last_delta_of(timer, split_number - 1, comparison, method)
                } else {
                    None
                };
                if difference.ticks < 0 {
                    match before {
                        Some(delta) if difference.ticks > delta.ticks =>
                            SemanticColor::AheadLosingTime,
                        _ => SemanticColor::AheadGainingTime,
                    }
                } else {
                    match before {
                        Some(delta) if difference.ticks < delta.ticks =>
                            SemanticColor::BehindGainingTime,
                        _ => SemanticColor::BehindLosingTime,
                    }
                }
            },
        }
    }
}

/// How far the attempt was from the comparison at the latest split up to
/// the segment at `segment_index` for which both have a time.
pub fn last_delta(
    timer: &Timer,
    segment_index: usize,
    comparison: &str,
    method: TimingMethod,
) -> (result: Option<TimeSpan>)
    ensures
        result == last_delta_of(timer@, segment_index as int, comparison@, method),
{
    let run = timer.run();
    let split_times = timer.split_times();
    if segment_index >= run.len() || segment_index >= split_times.len() {
        return None;
    }
    let mut index: usize = segment_index;
    loop
        invariant
            index <= segment_index,
            index < run@.segments.len(),
            index < split_times@.len(),
            run@ == timer@.run,
            split_times@ == timer@.split_times,
            last_delta_of(timer@, segment_index as int, comparison@, method) == last_delta_of(
                timer@,
                index as int,
                comparison@,
                method,
            ),
        decreases index,
    {
        let compared = run.segment(index).comparison(comparison).get(method);
        let split = split_times[index].get(method);
        match (compared, split) {
            (Some(compared), Some(split)) => {
                return Some(split - compared);
            },
            _ => {},
        }
        if index == 0 {
            assert(last_delta_of(timer@, -1, comparison@, method) is None);
            return None;
        }
        index -= 1;
    }
}

/// How much time the attempt gained or lost against the comparison on the
/// segment at `segment_index` alone.
pub fn segment_delta(
    timer: &Timer,
    segment_index: usize,
    comparison: &str,
    method: TimingMethod,
) -> (result: Option<TimeSpan>)
    ensures
        result == segment_delta_of(timer@, segment_index as int, comparison@, method),
{
    let run = timer.run();
    let split_times = timer.split_times();
    if segment_index >= run.len() || segment_index >= split_times.len() {
        return None;
    }
    let compared = run.segment(segment_index).comparison(comparison).get(method);
    let split = split_times[segment_index].get(method);
    match (compared, split) {
        (Some(compared), Some(split)) => {
            let before = if segment_index > 0 {
                match last_delta(timer, segment_index - 1, comparison, method) {
                    Some(delta) => delta,
                    None => TimeSpan::zero(),
                }
            } else {
                TimeSpan::zero()
            };
            Some((split - compared) - before)
        },
        _ => None,
    }
}

/// The latest split time of the attempt before the segment at `index`.
fn previous_split_time(timer: &Timer, index: usize, method: TimingMethod) -> (result: TimeSpan)
    ensures
        result == split_time_before(timer@, index as int, method),
{
    let split_times = timer.split_times();
    if index > split_times.len() {
        return TimeSpan::zero();
    }
    let mut at: usize = index;
    while at > 0
        invariant
            at <= index <= split_times@.len(),
            split_times@ == timer@.split_times,
            split_time_before(timer@, index as int, method) == split_time_before(
                timer@,
                at as int,
                method,
            ),
        decreases at,
    {
        match split_times[at - 1].get(method) {
            Some(split) => {
                return split;
            },
            None => {},
        }
        at -= 1;
    }
    TimeSpan::zero()
}

/// Whether the attempt ran the segment at `segment_index` faster than ever
/// before.
pub fn check_best_segment(timer: &Timer, segment_index: usize, method: TimingMethod) -> (result:
    bool)
    ensures
        result == is_best_segment(timer@, segment_index as int, method),
{
    let run = timer.run();
    let split_times = timer.split_times();
    if segment_index >= run.len() || segment_index >= split_times.len() {
        return false;
    }
    match split_times[segment_index].get(method) {
        None => false,
        Some(split) => match run.segment(segment_index).best_segment_time().get(method) {
            None => true,
            Some(best) => {
                let spent = split - previous_split_time(timer, segment_index, method);
                spent.ticks < best.ticks
            },
        },
    }
}

/// Classifies a time that is `time_difference` away from the comparison
/// `comparison` at the segment at `split_number`. Missing times are never an
/// error: without a difference the classification says nothing, and without
/// an earlier difference the sign alone decides.
pub fn split_color(
    timer: &Timer,
    time_difference: Option<TimeSpan>,
    split_number: usize,
    show_segment_deltas: bool,
    show_best_segments: bool,
    comparison: &str,
    method: TimingMethod,
) -> (result: SemanticColor)
    ensures
        result == split_color_of(
            timer@,
            time_difference,
            split_number as int,
            show_segment_deltas,
            show_best_segments,
            comparison@,
            method,
        ),
{
    if show_best_segments && check_best_segment(timer, split_number, method) {
        return SemanticColor::BestSegment;
    }
    let difference = match time_difference {
        Some(difference) => difference,
        None => {
            return SemanticColor::Default;
        },
    };
    let before = if show_segment_deltas && split_number > 0 {
        last_delta(timer, split_number - 1, comparison, method)
    } else {
        None
    };
    if difference.ticks < 0 {
        match before {
            Some(delta) => if difference.ticks > delta.ticks {
                SemanticColor::AheadLosingTime
            } else {
                SemanticColor::AheadGainingTime
            },
            None => SemanticColor::AheadGainingTime,
        }
    } else {
        match before {
            Some(delta) => if difference.ticks < delta.ticks {
                SemanticColor::BehindGainingTime
            } else {
                SemanticColor::BehindLosingTime
            },
            None => SemanticColor::BehindLosingTime,
        }
    }
}

/// A time ahead of the comparison counts as gaining time where nothing is
/// known of the split before, whatever else is shown: the sign alone
/// decides.
pub proof fn lemma_ahead_without_trend_is_gaining(
    timer: TimerView,
    difference: TimeSpan,
    split_number: int,
    show_segment_deltas: bool,
    show_best_segments: bool,
    comparison: Seq<char>,
    method: TimingMethod,
)
    requires
        difference.ticks < 0,
        last_delta_of(timer, split_number - 1, comparison, method) is None,
        !(show_best_segments && is_best_segment(timer, split_number, method)),
    ensures
        split_color_of(
            timer,
            Some(difference),
            split_number,
            show_segment_deltas,
            show_best_segments,
            comparison,
            method,
        ) == SemanticColor::AheadGainingTime,
{
}

/// A time behind or level with the comparison counts as losing time where
/// nothing is known of the split before.
pub proof fn lemma_behind_without_trend_is_losing(
    timer: TimerView,
    difference: TimeSpan,
    split_number: int,
    show_segment_deltas: bool,
    show_best_segments: bool,
    comparison: Seq<char>,
    method: TimingMethod,
)
    requires
        difference.ticks >= 0,
        last_delta_of(timer, split_number - 1, comparison, method) is None,
        !(show_best_segments && is_best_segment(timer, split_number, method)),
    ensures
        split_color_of(
            timer,
            Some(difference),
            split_number,
            show_segment_deltas,
            show_best_segments,
            comparison,
            method,
        ) == SemanticColor::BehindLosingTime,
{
}

/// The first segment has no split before it, so no trend is known there.
pub proof fn lemma_no_trend_at_the_first_segment(
    timer: TimerView,
    comparison: Seq<char>,
    method: TimingMethod,
)
    ensures
        last_delta_of(timer, -1, comparison, method) is None,
{
}

} // verus!

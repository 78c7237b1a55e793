use livesplit_core::analysis::total_playtime;
use livesplit_core::analysis::{check_best_segment, last_delta, segment_delta, split_color};
use livesplit_core::run::PERSONAL_BEST;
use livesplit_core::settings::SemanticColor;
use livesplit_core::{Run, Segment, Time, TimeSpan, Timer, TimerPhase, TimingMethod};

fn seconds(value: i64) -> TimeSpan {
    TimeSpan::from_seconds(value)
}

fn at(value: i64) -> Time {
    Time::new().with_real_time(Some(seconds(value)))
}

fn run_of(personal_best: &[Option<i64>]) -> Run {
    let mut run = Run::new();
    for (index, split) in personal_best.iter().enumerate() {
        let mut segment = Segment::new(&format!("segment {}", index));
        if let Some(split) = split {
            segment.set_personal_best_split_time(at(*split));
        }
        run.push_segment(segment);
    }
    run
}

#[test]
fn a_new_timer_is_not_running() {
    let timer = Timer::new(run_of(&[Some(10), Some(20)]));
    assert_eq!(timer.current_phase(), TimerPhase::NotRunning);
    assert_eq!(timer.current_split_index(), None);
    assert!(timer.current_split().is_none());
    assert_eq!(timer.current_time().real_time, Some(TimeSpan::zero()));
    assert_eq!(timer.current_time().game_time, None);
    assert_eq!(timer.current_timing_method(), TimingMethod::RealTime);
    assert_eq!(timer.current_comparison(), PERSONAL_BEST);
    assert_eq!(timer.clock(), TimeSpan::zero());
    assert_eq!(timer.run().len(), 2);
    assert_eq!(timer.split_times(), &vec![Time::new(), Time::new()]);
}

#[test]
fn an_attempt_runs_through_its_phases() {
    let mut timer = Timer::new(run_of(&[Some(10), Some(20)]));
    timer.advance_clock(seconds(100));
    timer.start();
    assert_eq!(timer.current_phase(), TimerPhase::Running);
    assert_eq!(timer.current_split_index(), Some(0));
    assert_eq!(timer.current_split().unwrap().name(), "segment 0");
    assert_eq!(timer.current_time().real_time, Some(seconds(0)));
    timer.advance_clock(seconds(108));
    assert_eq!(timer.current_time().real_time, Some(seconds(8)));
    timer.split();
    assert_eq!(timer.current_phase(), TimerPhase::Running);
    assert_eq!(timer.current_split_index(), Some(1));
    assert_eq!(timer.split_times()[0], at(8));
    timer.advance_clock(seconds(110));
    timer.pause();
    assert_eq!(timer.current_phase(), TimerPhase::Paused);
    timer.advance_clock(seconds(150));
    assert_eq!(timer.current_time().real_time, Some(seconds(10)));
    timer.split();
    assert_eq!(timer.current_split_index(), Some(1));
    timer.resume();
    assert_eq!(timer.current_phase(), TimerPhase::Running);
    assert_eq!(timer.current_time().real_time, Some(seconds(10)));
    timer.advance_clock(seconds(155));
    assert_eq!(timer.current_time().real_time, Some(seconds(15)));
    timer.split();
    assert_eq!(timer.current_phase(), TimerPhase::Ended);
    assert_eq!(timer.current_split_index(), Some(2));
    assert!(timer.current_split().is_none());
    timer.advance_clock(seconds(900));
    assert_eq!(timer.current_time().real_time, Some(seconds(15)));
    assert_eq!(timer.split_times(), &vec![at(8), at(15)]);
    assert_eq!(timer.current_attempt_duration(), seconds(55));
    timer.reset(true);
    assert_eq!(timer.current_phase(), TimerPhase::NotRunning);
    assert_eq!(timer.current_time().real_time, Some(TimeSpan::zero()));
    assert_eq!(timer.split_times(), &vec![Time::new(), Time::new()]);
    let run = timer.into_run();
    assert_eq!(run.attempt_history().len(), 1);
    assert_eq!(run.attempt_history()[0].index, 1);
    assert_eq!(run.attempt_history()[0].time, at(15));
    assert_eq!(run.attempt_history()[0].duration, seconds(55));
    assert_eq!(run.len(), 2);
    assert_eq!(run.attempt_count(), 0);
}

#[test]
fn steps_out_of_turn_change_nothing() {
    let mut timer = Timer::new(run_of(&[Some(10)]));
    timer.split();
    timer.pause();
    timer.resume();
    timer.reset(true);
    assert_eq!(timer.current_phase(), TimerPhase::NotRunning);
    assert!(timer.run().attempt_history().is_empty());
    timer.start();
    timer.advance_clock(seconds(3));
    timer.start();
    timer.resume();
    assert_eq!(timer.current_phase(), TimerPhase::Running);
    assert_eq!(timer.current_time().real_time, Some(seconds(3)));
    timer.split();
    timer.start();
    timer.pause();
    timer.split();
    assert_eq!(timer.current_phase(), TimerPhase::Ended);
}

#[test]
fn a_run_without_segments_is_never_started() {
    let mut timer = Timer::new(Run::new());
    timer.start();
    assert_eq!(timer.current_phase(), TimerPhase::NotRunning);
    assert_eq!(timer.current_split_index(), None);
}

#[test]
fn the_clock_never_runs_backwards() {
    let mut timer = Timer::new(run_of(&[Some(10)]));
    timer.advance_clock(seconds(50));
    timer.start();
    timer.advance_clock(seconds(60));
    timer.advance_clock(seconds(40));
    assert_eq!(timer.clock(), seconds(60));
    assert_eq!(timer.current_time().real_time, Some(seconds(10)));
}

#[test]
fn the_attempt_starts_at_the_offset() {
    let mut run = run_of(&[Some(10)]);
    run.set_offset(seconds(-5));
    let mut timer = Timer::new(run);
    timer.advance_clock(seconds(1000));
    timer.start();
    assert_eq!(timer.current_time().real_time, Some(seconds(-5)));
    timer.advance_clock(seconds(1007));
    assert_eq!(timer.current_time().real_time, Some(seconds(2)));
    assert_eq!(timer.current_attempt_duration(), seconds(7));
}

#[test]
fn game_time_is_real_time_without_loading() {
    let mut timer = Timer::new(run_of(&[Some(10)]));
    timer.start();
    timer.advance_clock(seconds(30));
    assert_eq!(timer.current_time().game_time, None);
    assert_eq!(timer.loading_times(), None);
    timer.set_loading_times(seconds(4));
    assert_eq!(timer.loading_times(), Some(seconds(4)));
    assert_eq!(timer.current_time().game_time, Some(seconds(26)));
    assert_eq!(timer.current_time().real_time, Some(seconds(30)));
    timer.split();
    assert_eq!(timer.split_times()[0], at(30).with_game_time(Some(seconds(26))));
    timer.reset(false);
    assert_eq!(timer.loading_times(), None);
}

#[test]
fn a_dropped_attempt_leaves_no_trace() {
    let mut timer = Timer::new(run_of(&[Some(10), Some(20)]));
    timer.start();
    timer.advance_clock(seconds(5));
    timer.split();
    timer.reset(false);
    assert_eq!(timer.current_phase(), TimerPhase::NotRunning);
    assert!(timer.run().attempt_history().is_empty());
    timer.start();
    timer.advance_clock(seconds(9));
    timer.reset(true);
    let history = timer.run().attempt_history();
    assert_eq!(history.len(), 1);
    assert_eq!(history[0].time, Time::new());
    assert_eq!(history[0].duration, seconds(4));
}

#[test]
fn comparison_and_method_can_be_chosen() {
    let mut timer = Timer::new(run_of(&[Some(10)]));
    timer.set_current_comparison("Old Run");
    timer.set_current_timing_method(TimingMethod::GameTime);
    assert_eq!(timer.current_comparison(), "Old Run");
    assert_eq!(timer.current_timing_method(), TimingMethod::GameTime);
    assert_eq!(timer.current_phase(), TimerPhase::NotRunning);
}

#[test]
fn total_playtime_adds_history_and_attempt() {
    let mut timer = Timer::new(run_of(&[Some(10)]));
    assert_eq!(total_playtime::calculate(&timer), TimeSpan::zero());
    timer.advance_clock(seconds(10));
    timer.start();
    timer.advance_clock(seconds(40));
    assert_eq!(total_playtime::calculate(&timer), seconds(30));
    timer.split();
    timer.advance_clock(seconds(400));
    assert_eq!(total_playtime::calculate(&timer), seconds(30));
    timer.reset(true);
    assert_eq!(total_playtime::calculate(&timer), seconds(30));
    timer.start();
    timer.advance_clock(seconds(405));
    timer.pause();
    timer.advance_clock(seconds(410));
    assert_eq!(total_playtime::calculate(&timer), seconds(40));
    timer.reset(true);
    assert_eq!(total_playtime::calculate(&timer), seconds(40));
    timer.start();
    timer.advance_clock(seconds(500));
    timer.reset(false);
    assert_eq!(total_playtime::calculate(&timer), seconds(40));
}

fn split_at(timer: &mut Timer, clock: i64) {
    timer.advance_clock(seconds(clock));
    timer.split();
}

#[test]
fn last_delta_skips_segments_without_times() {
    let mut timer = Timer::new(run_of(&[Some(10), None, Some(30), Some(40)]));
    timer.start();
    assert_eq!(last_delta(&timer, 0, PERSONAL_BEST, TimingMethod::RealTime), None);
    split_at(&mut timer, 12);
    split_at(&mut timer, 19);
    assert_eq!(last_delta(&timer, 0, PERSONAL_BEST, TimingMethod::RealTime), Some(seconds(2)));
    assert_eq!(last_delta(&timer, 1, PERSONAL_BEST, TimingMethod::RealTime), Some(seconds(2)));
    assert_eq!(last_delta(&timer, 2, PERSONAL_BEST, TimingMethod::RealTime), Some(seconds(2)));
    split_at(&mut timer, 27);
    assert_eq!(last_delta(&timer, 2, PERSONAL_BEST, TimingMethod::RealTime), Some(seconds(-3)));
    assert_eq!(last_delta(&timer, 2, PERSONAL_BEST, TimingMethod::GameTime), None);
    assert_eq!(last_delta(&timer, 2, "Old Run", TimingMethod::RealTime), None);
    assert_eq!(last_delta(&timer, 4, PERSONAL_BEST, TimingMethod::RealTime), None);
}

#[test]
fn split_color_reads_sign_and_trend() {
    let mut timer = Timer::new(run_of(&[Some(10), Some(20), Some(30)]));
    timer.start();
    let method = TimingMethod::RealTime;
    let color = |timer: &Timer, difference: i64, split: usize, deltas: bool| {
        split_color(timer, Some(seconds(difference)), split, deltas, false, PERSONAL_BEST, method)
    };
    assert_eq!(color(&timer, -1, 0, true), SemanticColor::AheadGainingTime);
    assert_eq!(color(&timer, 0, 0, true), SemanticColor::BehindLosingTime);
    assert_eq!(color(&timer, 1, 0, true), SemanticColor::BehindLosingTime);
    split_at(&mut timer, 8);
    assert_eq!(color(&timer, -3, 1, true), SemanticColor::AheadGainingTime);
    assert_eq!(color(&timer, -2, 1, true), SemanticColor::AheadGainingTime);
    assert_eq!(color(&timer, -1, 1, true), SemanticColor::AheadLosingTime);
    assert_eq!(color(&timer, -1, 1, false), SemanticColor::AheadGainingTime);
    assert_eq!(color(&timer, 5, 1, true), SemanticColor::BehindLosingTime);
    split_at(&mut timer, 24);
    assert_eq!(color(&timer, 3, 2, true), SemanticColor::BehindGainingTime);
    assert_eq!(color(&timer, 4, 2, true), SemanticColor::BehindLosingTime);
    assert_eq!(color(&timer, 3, 2, false), SemanticColor::BehindLosingTime);
    assert_eq!(color(&timer, -1, 2, true), SemanticColor::AheadGainingTime);
    assert_eq!(
        split_color(&timer, None, 2, true, false, PERSONAL_BEST, method),
        SemanticColor::Default
    );
}

#[test]
fn best_segments_come_first_where_they_are_shown() {
    let mut run = run_of(&[Some(10), Some(20)]);
    let mut second = Segment::new("segment 1");
    second.set_best_segment_time(at(9));
    run.push_segment(second);
    let mut timer = Timer::new(run);
    let method = TimingMethod::RealTime;
    timer.start();
    assert!(!check_best_segment(&timer, 0, method));
    split_at(&mut timer, 11);
    assert!(check_best_segment(&timer, 0, method));
    split_at(&mut timer, 21);
    split_at(&mut timer, 29);
    assert!(check_best_segment(&timer, 2, method));
    assert!(!check_best_segment(&timer, 2, TimingMethod::GameTime));
    assert!(!check_best_segment(&timer, 3, method));
    assert_eq!(
        split_color(&timer, Some(seconds(5)), 2, true, true, PERSONAL_BEST, method),
        SemanticColor::BestSegment
    );
    assert_eq!(
        split_color(&timer, Some(seconds(5)), 2, true, false, PERSONAL_BEST, method),
        SemanticColor::BehindLosingTime
    );
    let mut slow = Timer::new({
        let mut run = Run::new();
        let mut segment = Segment::new("only");
        segment.set_best_segment_time(at(9));
        run.push_segment(segment);
        run
    });
    slow.start();
    split_at(&mut slow, 9);
    assert!(!check_best_segment(&slow, 0, method));
}

#[test]
fn elapsed_picks_the_method_and_falls_back_to_real_time() {
    let mut timer = Timer::new(run_of(&[Some(10)]));
    assert_eq!(timer.elapsed(None), TimeSpan::zero());
    timer.start();
    timer.advance_clock(seconds(30));
    assert_eq!(timer.elapsed(None), seconds(30));
    assert_eq!(timer.elapsed(Some(TimingMethod::GameTime)), seconds(30));
    timer.set_loading_times(seconds(4));
    assert_eq!(timer.elapsed(Some(TimingMethod::GameTime)), seconds(26));
    assert_eq!(timer.elapsed(Some(TimingMethod::RealTime)), seconds(30));
    assert_eq!(timer.elapsed(None), seconds(30));
    timer.set_current_timing_method(TimingMethod::GameTime);
    assert_eq!(timer.elapsed(None), seconds(26));
}

#[test]
fn segment_delta_is_the_change_since_the_split_before() {
    let mut timer = Timer::new(run_of(&[Some(10), None, Some(30)]));
    let method = TimingMethod::RealTime;
    timer.start();
    assert_eq!(segment_delta(&timer, 0, PERSONAL_BEST, method), None);
    split_at(&mut timer, 12);
    assert_eq!(segment_delta(&timer, 0, PERSONAL_BEST, method), Some(seconds(2)));
    split_at(&mut timer, 20);
    assert_eq!(segment_delta(&timer, 1, PERSONAL_BEST, method), None);
    split_at(&mut timer, 29);
    assert_eq!(segment_delta(&timer, 2, PERSONAL_BEST, method), Some(seconds(-3)));
    assert_eq!(segment_delta(&timer, 2, "Old Run", method), None);
    assert_eq!(segment_delta(&timer, 3, PERSONAL_BEST, method), None);
}

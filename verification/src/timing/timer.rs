//! The timer: one attempt at a time on a run that it owns.
//!
//! The timer reads no clock of its own. Its owner hands it the readings of
//! a clock of its choice, and every time that the timer reports follows from
//! the readings it was given.

use super::timer_phase::TimerPhase;
use crate::run::attempt::Attempt;
use crate::run::run::{Run, RunView};
use crate::run::segment::{Segment, PERSONAL_BEST};
use crate::time::{Time, TimeSpan, TimingMethod};
use vstd::prelude::*;

verus! {

/// Where an attempt stands.
enum Progress {
    /// No attempt is in progress.
    NotRunning,
    /// The segment at `index` is being run.
    Running { index: usize },
    /// The segment at `index` is being run, and the time stands still.
    Paused { index: usize },
    /// All segments are done.
    Ended,
}

/// Times one attempt after the other on the run that it owns.
pub struct Timer {
    run: Run,
    progress: Progress,
    timing_method: TimingMethod,
    comparison: String,
    clock: TimeSpan,
    attempt_started: TimeSpan,
    attempt_ended: TimeSpan,
    origin: TimeSpan,
    stopped_at: TimeSpan,
    loading_times: Option<TimeSpan>,
    split_times: Vec<Time>,
}

/// What a timer holds.
pub struct TimerView {
    /// The run that the timer owns.
    pub run: RunView,
    /// The phase of the attempt.
    pub phase: TimerPhase,
    /// How many segments of the attempt are done.
    pub split_index: nat,
    /// The timing method that is shown where none is asked for.
    pub timing_method: TimingMethod,
    /// The name of the comparison that the attempt is held against.
    pub comparison: Seq<char>,
    /// The latest reading of the clock.
    pub clock: TimeSpan,
    /// The reading of the clock when the attempt started.
    pub attempt_started: TimeSpan,
    /// The reading of the clock when the attempt passed its last segment.
    pub attempt_ended: TimeSpan,
    /// The reading of the clock at which the real time of the attempt is
    /// zero.
    pub origin: TimeSpan,
    /// The real time at which the attempt stands still, while it is paused
    /// or ended.
    pub stopped_at: TimeSpan,
    /// The time that the game spent loading, once game time is tracked.
    pub loading_times: Option<TimeSpan>,
    /// The split times of the attempt, one for each segment; absent for a
    /// segment that is not done.
    pub split_times: Seq<Time>,
}

/// The sum of the durations of `history`, oldest first.
pub open spec fn total_duration(history: Seq<Attempt>) -> TimeSpan
    decreases history.len(),
{
    if history.len() == 0 {
        TimeSpan::zero()
    } else {
        total_duration(history.drop_last()).plus(history.last().duration)
    }
}

impl TimerView {
    /// What always holds of a timer. While no attempt is in progress, no
    /// segment is done. While one is, the run has a segment, every segment
    /// has a split time, and the count of done segments fits the phase.
    pub open spec fn wf(self) -> bool {
        match self.phase {
            TimerPhase::NotRunning => self.split_index == 0,
            TimerPhase::Running | TimerPhase::Paused => {
                &&& self.split_times.len() == self.run.segments.len()
                &&& self.split_index < self.run.segments.len()
            },
            TimerPhase::Ended => {
                &&& self.split_times.len() == self.run.segments.len()
                &&& self.split_index == self.run.segments.len()
                &&& self.run.segments.len() > 0
            },
        }
    }

    /// The real time of the attempt: zero while no attempt is in progress,
    /// the time since the origin while it runs, and the time at which it
    /// stopped while it is paused or ended.
    pub open spec fn real_time(self) -> TimeSpan {
        match self.phase {
            TimerPhase::NotRunning => TimeSpan::zero(),
            TimerPhase::Running => self.clock.minus(self.origin),
            TimerPhase::Paused | TimerPhase::Ended => self.stopped_at,
        }
    }

    /// The time of the attempt: the real time, and as game time the real
    /// time without the loading times, once game time is tracked.
    pub open spec fn current_time(self) -> Time {
        Time {
            real_time: Some(self.real_time()),
            game_time: match self.loading_times {
                Some(loading) => Some(self.real_time().minus(loading)),
                None => None,
            },
        }
    }

    /// The time of the attempt in one timing method: in `method` if one is
    /// asked for, in the timing method of the timer otherwise, and in real
    /// time where that method has no time.
    pub open spec fn elapsed(self, method: Option<TimingMethod>) -> TimeSpan {
        let chosen = match method {
            Some(method) => method,
            None => self.timing_method,
        };
        match self.current_time().spec_get(chosen) {
            Some(time) => time,
            None => self.real_time(),
        }
    }

    /// How long the attempt has lasted on the clock, pauses included: from
    /// its start to its last split if it has ended, to the latest reading
    /// otherwise. Zero while no attempt is in progress.
    pub open spec fn attempt_duration(self) -> TimeSpan {
        match self.phase {
            TimerPhase::NotRunning => TimeSpan::zero(),
            TimerPhase::Ended => self.attempt_ended.minus(self.attempt_started),
            TimerPhase::Running | TimerPhase::Paused => self.clock.minus(self.attempt_started),
        }
    }

    /// The time spent on the category: the durations of all attempts of the
    /// history and of the attempt in progress.
    pub open spec fn total_playtime(self) -> TimeSpan {
        total_duration(self.run.attempt_history).plus(self.attempt_duration())
    }

    /// The split times with no time recorded.
    pub open spec fn no_split_times(self) -> Seq<Time> {
        Seq::new(self.run.segments.len(), |i: int| Time::new())
    }

    /// The timer after a reading of the clock: the clock never runs
    /// backwards, so an earlier reading changes nothing.
    pub open spec fn observe(self, reading: TimeSpan) -> TimerView {
        if self.clock.ticks < reading.ticks {
            TimerView { clock: reading, ..self }
        } else {
            self
        }
    }

    /// The timer after `start`: a timer that is not running starts an
    /// attempt at the offset of the run, if the run has a segment at all;
    /// any other timer stays as it is.
    pub open spec fn start(self) -> TimerView {
        if self.phase == TimerPhase::NotRunning && self.run.is_usable() {
            TimerView {
                phase: TimerPhase::Running,
                split_index: 0,
                attempt_started: self.clock,
                origin: self.clock.minus(self.run.offset),
                loading_times: None,
                split_times: self.no_split_times(),
                ..self
            }
        } else {
            self
        }
    }

    /// The timer after `split`: a running timer records the time of the
    /// attempt as the split time of the current segment and goes on to the
    /// next one; behind the last segment the attempt has ended and its time
    /// stands still. Any other timer stays as it is.
    pub open spec fn split(self) -> TimerView {
        if self.phase == TimerPhase::Running {
            let split_times = self.split_times.update(self.split_index as int, self.current_time());
            if self.split_index + 1 == self.run.segments.len() {
                TimerView {
                    phase: TimerPhase::Ended,
                    split_index: self.split_index + 1,
                    attempt_ended: self.clock,
                    stopped_at: self.real_time(),
                    split_times,
                    ..self
                }
            } else {
                TimerView { split_index: self.split_index + 1, split_times, ..self }
            }
        } else {
            self
        }
    }

    /// The timer after `pause`: the time of a running timer stands still.
    /// Any other timer stays as it is.
    pub open spec fn pause(self) -> TimerView {
        if self.phase == TimerPhase::Running {
            TimerView { phase: TimerPhase::Paused, stopped_at: self.real_time(), ..self }
        } else {
            self
        }
    }

    /// The timer after `resume`: the time of a paused timer runs on from
    /// where it stood. Any other timer stays as it is.
    pub open spec fn resume(self) -> TimerView {
        if self.phase == TimerPhase::Paused {
            TimerView {
                phase: TimerPhase::Running,
                origin: self.clock.minus(self.stopped_at),
                ..self
            }
        } else {
            self
        }
    }

    /// The entry that the attempt in progress leaves in the history: its
    /// number, its final time if it has ended, and its duration.
    pub open spec fn attempt(self) -> Attempt {
        Attempt {
            index: if self.run.attempt_history.len() < u32::MAX {
                (self.run.attempt_history.len() + 1) as u32
            } else {
                u32::MAX
            },
            time: if self.phase == TimerPhase::Ended {
                self.current_time()
            } else {
                Time::new()
            },
            duration: self.attempt_duration(),
        }
    }

    /// The timer after `reset`: the attempt in progress, ended or not, goes
    /// into the history of the run if `commit` is set and is dropped
    /// otherwise, and the timer is not running. A timer that is not running
    /// stays as it is.
    pub open spec fn reset(self, commit: bool) -> TimerView {
        if self.phase == TimerPhase::NotRunning {
            self
        } else {
            TimerView {
                run: if commit {
                    RunView {
                        attempt_history: self.run.attempt_history.push(self.attempt()),
                        ..self.run
                    }
                } else {
                    self.run
                },
                phase: TimerPhase::NotRunning,
                split_index: 0,
                loading_times: None,
                split_times: self.no_split_times(),
                ..self
            }
        }
    }
}

/// Every step keeps a timer well formed.
pub proof fn lemma_steps_keep_well_formed(timer: TimerView, reading: TimeSpan, commit: bool)
    requires
        timer.wf(),
    ensures
        timer.observe(reading).wf(),
        timer.start().wf(),
        timer.split().wf(),
        timer.pause().wf(),
        timer.resume().wf(),
        timer.reset(commit).wf(),
{
}

/// The phases follow each other as the steps say: starting leads from not
/// running to running, pausing from running to paused, resuming from paused
/// to running, splitting from running to ended at the last segment and
/// nowhere else, resetting from every phase to not running.
pub proof fn lemma_phases_follow_the_steps(timer: TimerView, commit: bool)
    requires
        timer.wf(),
    ensures
        timer.start().phase == if timer.phase == TimerPhase::NotRunning && timer.run.is_usable() {
            TimerPhase::Running
        } else {
            timer.phase
        },
        timer.pause().phase == if timer.phase == TimerPhase::Running {
            TimerPhase::Paused
        } else {
            timer.phase
        },
        timer.resume().phase == if timer.phase == TimerPhase::Paused {
            TimerPhase::Running
        } else {
            timer.phase
        },
        timer.split().phase == if timer.phase == TimerPhase::Running && timer.split_index + 1
            == timer.run.segments.len() {
            TimerPhase::Ended
        } else {
            timer.phase
        },
        timer.phase == TimerPhase::Running ==> timer.split().split_index == timer.split_index + 1,
        timer.phase != TimerPhase::Running ==> timer.split() == timer,
        timer.reset(commit).phase == TimerPhase::NotRunning,
{
}

/// The time of the attempt is defined in every phase: zero while no attempt
/// is in progress, the offset of the run right after the start, unchanged by
/// the clock while the attempt is paused or ended, and never falling while
/// it runs.
pub proof fn lemma_time_in_every_phase(timer: TimerView, earlier: TimeSpan, later: TimeSpan)
    requires
        earlier.ticks <= later.ticks,
    ensures
        timer.current_time().real_time is Some,
        timer.phase == TimerPhase::NotRunning ==> timer.real_time() == TimeSpan::zero(),
        timer.phase != TimerPhase::Running ==> timer.observe(later).current_time()
            == timer.current_time(),
        timer.observe(earlier).real_time().ticks <= timer.observe(later).real_time().ticks,
        timer.real_time().ticks <= timer.observe(later).real_time().ticks,
        timer.pause().real_time() == timer.real_time(),
        timer.pause().observe(later).real_time() == timer.real_time(),
        timer.phase == TimerPhase::Running ==> timer.split().real_time() == timer.real_time(),
{
}

/// Only a reset with the attempt kept changes the run, and it changes
/// nothing but the history, which grows by the attempt in progress.
pub proof fn lemma_only_a_kept_reset_changes_the_run(
    timer: TimerView,
    reading: TimeSpan,
)
    ensures
        timer.observe(reading).run == timer.run,
        timer.start().run == timer.run,
        timer.split().run == timer.run,
        timer.pause().run == timer.run,
        timer.resume().run == timer.run,
        timer.reset(false).run == timer.run,
        timer.reset(true).run == if timer.phase == TimerPhase::NotRunning {
            timer.run
        } else {
            RunView {
                attempt_history: timer.run.attempt_history.push(timer.attempt()),
                ..timer.run
            }
        },
{
}

impl View for Timer {
    type V = TimerView;

    closed spec fn view(&self) -> TimerView {
        TimerView {
            run: self.run@,
            phase: match self.progress {
                Progress::NotRunning => TimerPhase::NotRunning,
                Progress::Running { .. } => TimerPhase::Running,
                Progress::Paused { .. } => TimerPhase::Paused,
                Progress::Ended => TimerPhase::Ended,
            },
            split_index: match self.progress {
                Progress::NotRunning => 0,
                Progress::Running { index } => index as nat,
                Progress::Paused { index } => index as nat,
                Progress::Ended => self.run@.segments.len(),
            },
            timing_method: self.timing_method,
            comparison: self.comparison@,
            clock: self.clock,
            attempt_started: self.attempt_started,
            attempt_ended: self.attempt_ended,
            origin: self.origin,
            stopped_at: self.stopped_at,
            loading_times: self.loading_times,
            split_times: self.split_times@,
        }
    }
}

/// As many absent split times as `count`.
fn no_times(count: usize) -> (times: Vec<Time>)
    ensures
        times@ == Seq::new(count as nat, |i: int| Time::new()),
{
    let mut times: Vec<Time> = Vec::new();
    while times.len() < count
        invariant
            times@.len() <= count,
            forall|i: int| 0 <= i < times@.len() ==> times@[i] == Time::new(),
        decreases count - times@.len(),
    {
        times.push(Time::new());
    }
    assert(times@ =~= Seq::new(count as nat, |i: int| Time::new()));
    times
}

impl Timer {
    #[verifier::type_invariant]
    spec fn well_formed(self) -> bool {
        self@.wf()
    }

    /// The timer for `run`, not running, with the clock at zero, real time
    /// as its timing method and the personal best as its comparison.
    pub fn new(run: Run) -> (result: Timer)
        ensures
            result@.wf(),
            result@.run == run@,
            result@.phase == TimerPhase::NotRunning,
            result@.split_index == 0,
            result@.timing_method == TimingMethod::RealTime,
            result@.comparison == PERSONAL_BEST@,
            result@.clock == TimeSpan::zero(),
            result@.loading_times is None,
            result@.split_times == result@.no_split_times(),
    {
        let split_times = no_times(run.len());
        Timer {
            run,
            progress: Progress::NotRunning,
            timing_method: TimingMethod::RealTime,
            comparison: PERSONAL_BEST.to_owned(),
            clock: TimeSpan::zero(),
            attempt_started: TimeSpan::zero(),
            attempt_ended: TimeSpan::zero(),
            origin: TimeSpan::zero(),
            stopped_at: TimeSpan::zero(),
            loading_times: None,
            split_times,
        }
    }

    /// The run that the timer owns.
    pub fn run(&self) -> (result: &Run)
        ensures
            result@ == self@.run,
            self@.wf(),
    {
        proof {
            use_type_invariant(self);
        }
        &self.run
    }

    /// Gives up the timer for the run that it owns.
    pub fn into_run(self) -> (result: Run)
        ensures
            result@ == self@.run,
    {
        self.run
    }

    /// The phase of the attempt.
    pub fn current_phase(&self) -> (result: TimerPhase)
        ensures
            result == self@.phase,
            self@.wf(),
    {
        proof {
            use_type_invariant(self);
        }
        match self.progress {
            Progress::NotRunning => TimerPhase::NotRunning,
            Progress::Running { .. } => TimerPhase::Running,
            Progress::Paused { .. } => TimerPhase::Paused,
            Progress::Ended => TimerPhase::Ended,
        }
    }

    /// How many segments of the attempt are done, which is the place of the
    /// segment that is being run; nothing while no attempt is in progress.
    pub fn current_split_index(&self) -> (result: Option<usize>)
        ensures
            self@.wf(),
            match result {
                Some(index) => self@.phase != TimerPhase::NotRunning && index == self@.split_index,
                None => self@.phase == TimerPhase::NotRunning,
            },
    {
        proof {
            use_type_invariant(self);
        }
        match self.progress {
            Progress::NotRunning => None,
            Progress::Running { index } => Some(index),
            Progress::Paused { index } => Some(index),
            Progress::Ended => Some(self.run.len()),
        }
    }

    /// The segment that is being run; nothing while no attempt is in
    /// progress and once it has ended.
    pub fn current_split(&self) -> (result: Option<&Segment>)
        ensures
            self@.wf(),
            match result {
                Some(segment) => {
                    &&& self@.phase == TimerPhase::Running || self@.phase == TimerPhase::Paused
                    &&& segment@ == self@.run.segments[self@.split_index as int]
                },
                None => self@.phase == TimerPhase::NotRunning || self@.phase == TimerPhase::Ended,
            },
    {
        proof {
            use_type_invariant(self);
        }
        match self.progress {
            Progress::Running { index } => Some(self.run.segment(index)),
            Progress::Paused { index } => Some(self.run.segment(index)),
            _ => None,
        }
    }

    /// The timing method that is shown where none is asked for.
    pub fn current_timing_method(&self) -> (result: TimingMethod)
        ensures
            result == self@.timing_method,
    {
        self.timing_method
    }

    /// Sets the timing method that is shown where none is asked for.
    pub fn set_current_timing_method(&mut self, method: TimingMethod)
        ensures
            final(self)@ == (TimerView { timing_method: method, ..old(self)@ }),
    {
        proof {
            use_type_invariant(&*self);
        }
        self.timing_method = method;
    }

    /// The name of the comparison that the attempt is held against.
    pub fn current_comparison(&self) -> (result: &str)
        ensures
            result@ == self@.comparison,
    {
        self.comparison.as_str()
    }

    /// Holds the attempt against the comparison `name` from now on. A name
    /// that the run does not know is accepted: such a comparison has no
    /// time for any segment.
    pub fn set_current_comparison(&mut self, name: &str)
        ensures
            final(self)@ == (TimerView { comparison: name@, ..old(self)@ }),
    {
        proof {
            use_type_invariant(&*self);
        }
        self.comparison = name.to_owned();
    }

    /// The latest reading of the clock.
    pub fn clock(&self) -> (result: TimeSpan)
        ensures
            result == self@.clock,
    {
        self.clock
    }

    /// Takes a reading of the clock. The clock never runs backwards: a
    /// reading before the latest one is ignored. While the attempt runs its
    /// time grows with the clock; in every other phase it stays what it was.
    pub fn advance_clock(&mut self, reading: TimeSpan)
        ensures
            final(self)@ == old(self)@.observe(reading),
            final(self)@.real_time().ticks >= old(self)@.real_time().ticks,
            old(self)@.phase != TimerPhase::Running ==> final(self)@.current_time() == old(
                self,
            )@.current_time(),
    {
        proof {
            use_type_invariant(&*self);
        }
        if self.clock.ticks < reading.ticks {
            self.clock = reading;
        }
    }

    /// The time that the game spent loading, once game time is tracked.
    pub fn loading_times(&self) -> (result: Option<TimeSpan>)
        ensures
            result == self@.loading_times,
    {
        self.loading_times
    }

    /// Tracks game time from now on, as the real time without `loading`.
    pub fn set_loading_times(&mut self, loading: TimeSpan)
        ensures
            final(self)@ == (TimerView { loading_times: Some(loading), ..old(self)@ }),
    {
        proof {
            use_type_invariant(&*self);
        }
        self.loading_times = Some(loading);
    }

    /// The time of the attempt, in both timing methods: zero in real time
    /// while no attempt is in progress, the time since the start while it
    /// runs, and the time at which it stopped while it is paused or ended.
    pub fn current_time(&self) -> (result: Time)
        ensures
            result == self@.current_time(),
            result.real_time is Some,
    {
        let real_time = match self.progress {
            Progress::NotRunning => TimeSpan::zero(),
            Progress::Running { .. } => self.clock - self.origin,
            Progress::Paused { .. } => self.stopped_at,
            Progress::Ended => self.stopped_at,
        };
        let game_time = match self.loading_times {
            Some(loading) => Some(real_time - loading),
            None => None,
        };
        Time { real_time: Some(real_time), game_time }
    }

    /// The time of the attempt in one timing method: in `method` if one is
    /// asked for, in the timing method of the timer otherwise, and in real
    /// time where that method has no time.
    pub fn elapsed(&self, method: Option<TimingMethod>) -> (result: TimeSpan)
        ensures
            result == self@.elapsed(method),
    {
        let chosen = match method {
            Some(method) => method,
            None => self.timing_method,
        };
        let time = self.current_time();
        match time.get(chosen) {
            Some(time) => time,
            None => match time.real_time {
                Some(time) => time,
                None => TimeSpan::zero(),
            },
        }
    }

    /// The split times of the attempt, one for each segment.
    pub fn split_times(&self) -> (result: &Vec<Time>)
        ensures
            result@ == self@.split_times,
            self@.wf(),
    {
        proof {
            use_type_invariant(self);
        }
        &self.split_times
    }

    /// How long the attempt has lasted on the clock, pauses included.
    pub fn current_attempt_duration(&self) -> (result: TimeSpan)
        ensures
            result == self@.attempt_duration(),
    {
        match self.progress {
            Progress::NotRunning => TimeSpan::zero(),
            Progress::Ended => self.attempt_ended - self.attempt_started,
            _ => self.clock - self.attempt_started,
        }
    }

    /// Starts an attempt if none is in progress.
    pub fn start(&mut self)
        ensures
            final(self)@ == old(self)@.start(),
    {
        proof {
            use_type_invariant(&*self);
        }
        if let Progress::NotRunning = self.progress {
            if self.run.is_empty() {
                return ;
            }
            let split_times = no_times(self.run.len());
            self.attempt_started = self.clock;
            self.origin = self.clock - self.run.offset();
            self.loading_times = None;
            self.split_times = split_times;
            self.progress = Progress::Running { index: 0 };
        }
    }

    /// Ends the current segment of a running attempt.
    pub fn split(&mut self)
        ensures
            final(self)@ == old(self)@.split(),
    {
        proof {
            use_type_invariant(&*self);
        }
        if let Progress::Running { index } = self.progress {
            let count = self.run.len();
            let time = self.current_time();
            self.split_times[index] = time;
            if index + 1 == count {
                self.attempt_ended = self.clock;
                self.stopped_at = self.clock - self.origin;
                self.progress = Progress::Ended;
            } else {
                self.progress = Progress::Running { index: index + 1 };
            }
        }
    }

    /// Pauses a running attempt.
    pub fn pause(&mut self)
        ensures
            final(self)@ == old(self)@.pause(),
    {
        proof {
            use_type_invariant(&*self);
        }
        if let Progress::Running { index } = self.progress {
            self.stopped_at = self.clock - self.origin;
            self.progress = Progress::Paused { index };
        }
    }

    /// Lets a paused attempt run on.
    pub fn resume(&mut self)
        ensures
            final(self)@ == old(self)@.resume(),
    {
        proof {
            use_type_invariant(&*self);
        }
        if let Progress::Paused { index } = self.progress {
            self.origin = self.clock - self.stopped_at;
            self.progress = Progress::Running { index };
        }
    }

    /// Ends the attempt in progress, whether it has passed its last segment
    /// or not. With `commit` set the attempt goes into the history of the
    /// run, otherwise it is dropped.
    pub fn reset(&mut self, commit: bool)
        ensures
            final(self)@ == old(self)@.reset(commit),
    {
        proof {
            use_type_invariant(&*self);
        }
        if let Progress::NotRunning = self.progress {
            return ;
        }
        let count = self.run.attempt_history().len();
        let index: u32 = if count < u32::MAX as usize {
            (count + 1) as u32
        } else {
            u32::MAX
        };
        let time = if let Progress::Ended = self.progress {
            self.current_time()
        } else {
            Time::new()
        };
        let attempt = Attempt::new(index, time, self.current_attempt_duration());
        let split_times = no_times(self.run.len());
        self.progress = Progress::NotRunning;
        self.loading_times = None;
        self.split_times = split_times;
        if commit {
            let mut run = Run::new();
            core::mem::swap(&mut run, &mut self.run);
            run.add_attempt(attempt);
            self.run = run;
        }
    }
}

} // verus!

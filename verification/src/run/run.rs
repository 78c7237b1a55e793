//! The run itself.

use super::attempt::Attempt;
use super::image::Image;
use super::segment::{Segment, SegmentView};
use crate::text::same_text;
use crate::time::TimeSpan;
use vstd::prelude::*;

verus! {

/// A category of a game with its segments, in the order in which they are
/// run, and the history of the attempts made on it.
pub struct Run {
    category_name: String,
    attempt_count: u32,
    offset: TimeSpan,
    segments: Vec<Segment>,
    custom_comparisons: Vec<String>,
    attempt_history: Vec<Attempt>,
}

/// What a run holds.
pub struct RunView {
    /// The name of the category.
    pub category_name: Seq<char>,
    /// How many attempts were started.
    pub attempt_count: u32,
    /// The time at which the clock of an attempt starts; before zero for a
    /// countdown.
    pub offset: TimeSpan,
    /// The segments, in the order in which they are run.
    pub segments: Seq<SegmentView>,
    /// The names of the registered custom comparisons, in the order in which
    /// they were registered.
    pub custom_comparisons: Seq<Seq<char>>,
    /// The attempts made so far, oldest first.
    pub attempt_history: Seq<Attempt>,
}

impl RunView {
    /// Whether a timer can run on this run: it needs at least one segment.
    pub open spec fn is_usable(self) -> bool {
        self.segments.len() > 0
    }

    /// Whether every custom comparison that a segment holds a time for is
    /// registered with the run.
    pub open spec fn comparisons_are_registered(self) -> bool {
        forall|i: int, name: Seq<char>|
            0 <= i < self.segments.len() && #[trigger] self.segments[i].comparisons.dom().contains(
                name,
            ) ==> self.custom_comparisons.contains(name)
    }

    /// The run with `icons` given to its segments by position: the first icon
    /// to the first segment and so on, as far as both reach.
    pub open spec fn with_icons(self, icons: Seq<Seq<u8>>) -> RunView {
        RunView {
            segments: Seq::new(
                self.segments.len(),
                |i: int|
                    if i < icons.len() {
                        SegmentView { icon: icons[i], ..self.segments[i] }
                    } else {
                        self.segments[i]
                    },
            ),
            ..self
        }
    }
}

/// What each of `segments` holds, in the same order.
pub open spec fn segment_views(segments: Seq<Segment>) -> Seq<SegmentView> {
    Seq::new(segments.len(), |i: int| segments[i]@)
}

/// The text of each of `names`, in the same order.
pub open spec fn name_views(names: Seq<String>) -> Seq<Seq<char>> {
    Seq::new(names.len(), |i: int| names[i]@)
}

/// The bytes of each of `icons`, in the same order.
pub open spec fn icon_views(icons: Seq<Image>) -> Seq<Seq<u8>> {
    Seq::new(icons.len(), |i: int| icons[i]@)
}

impl View for Run {
    type V = RunView;

    closed spec fn view(&self) -> RunView {
        RunView {
            category_name: self.category_name@,
            attempt_count: self.attempt_count,
            offset: self.offset,
            segments: segment_views(self.segments@),
            custom_comparisons: name_views(self.custom_comparisons@),
            attempt_history: self.attempt_history@,
        }
    }
}

impl Run {
    /// The run without a name, segments, comparisons or attempts.
    pub fn new() -> (result: Run)
        ensures
            result@.category_name == Seq::<char>::empty(),
            result@.attempt_count == 0,
            result@.offset == TimeSpan::zero(),
            result@.segments == Seq::<SegmentView>::empty(),
            result@.custom_comparisons == Seq::<Seq<char>>::empty(),
            result@.attempt_history == Seq::<Attempt>::empty(),
    {
        let run = Run {
            category_name: String::new(),
            attempt_count: 0,
            offset: TimeSpan::zero(),
            segments: Vec::new(),
            custom_comparisons: Vec::new(),
            attempt_history: Vec::new(),
        };
        assert(run@.segments =~= Seq::<SegmentView>::empty());
        assert(run@.custom_comparisons =~= Seq::<Seq<char>>::empty());
        run
    }

    /// The name of the category.
    pub fn category_name(&self) -> (result: &str)
        ensures
            result@ == self@.category_name,
    {
        self.category_name.as_str()
    }

    /// Gives the category the name `name`.
    pub fn set_category_name(&mut self, name: &str)
        ensures
            final(self)@ == (RunView { category_name: name@, ..old(self)@ }),
    {
        self.category_name = name.to_owned();
    }

    /// How many attempts were started.
    pub fn attempt_count(&self) -> (result: u32)
        ensures
            result == self@.attempt_count,
    {
        self.attempt_count
    }

    /// Sets the number of attempts that were started.
    pub fn set_attempt_count(&mut self, attempts: u32)
        ensures
            final(self)@ == (RunView { attempt_count: attempts, ..old(self)@ }),
    {
        self.attempt_count = attempts;
    }

    /// The time at which the clock of an attempt starts.
    pub fn offset(&self) -> (result: TimeSpan)
        ensures
            result == self@.offset,
    {
        self.offset
    }

    /// Sets the time at which the clock of an attempt starts.
    pub fn set_offset(&mut self, offset: TimeSpan)
        ensures
            final(self)@ == (RunView { offset, ..old(self)@ }),
    {
        self.offset = offset;
    }

    /// The number of segments.
    pub fn len(&self) -> (result: usize)
        ensures
            result == self@.segments.len(),
    {
        self.segments.len()
    }

    /// Whether the run has no segment.
    pub fn is_empty(&self) -> (result: bool)
        ensures
            result == !self@.is_usable(),
    {
        self.segments.len() == 0
    }

    /// The segments, in the order in which they are run.
    pub fn segments(&self) -> (result: &Vec<Segment>)
        ensures
            segment_views(result@) == self@.segments,
    {
        &self.segments
    }

    /// The segment at `index`.
    pub fn segment(&self, index: usize) -> (result: &Segment)
        requires
            index < self@.segments.len(),
        ensures
            result@ == self@.segments[index as int],
    {
        &self.segments[index]
    }

    /// Appends `segment` behind the segments that the run has; these keep
    /// their places.
    pub fn push_segment(&mut self, segment: Segment)
        ensures
            final(self)@ == (RunView {
                segments: old(self)@.segments.push(segment@),
                ..old(self)@
            }),
    {
        self.segments.push(segment);
        assert(self@.segments =~= old(self)@.segments.push(segment@));
    }

    /// Gives the segment at `index` the icon `icon`.
    pub fn set_segment_icon(&mut self, index: usize, icon: Image)
        requires
            index < old(self)@.segments.len(),
        ensures
            final(self)@ == (RunView {
                segments: old(self)@.segments.update(
                    index as int,
                    SegmentView { icon: icon@, ..old(self)@.segments[index as int] },
                ),
                ..old(self)@
            }),
    {
        self.segments[index].set_icon(icon);
        assert(self@.segments =~= old(self)@.segments.update(
            index as int,
            SegmentView { icon: icon@, ..old(self)@.segments[index as int] },
        ));
    }

    /// Gives the icons to the segments by position: the first icon to the
    /// first segment and so on. Icons beyond the last segment are dropped,
    /// segments beyond the last icon keep theirs.
    pub fn assign_icons(&mut self, icons: Vec<Image>)
        ensures
            final(self)@ == old(self)@.with_icons(icon_views(icons@)),
    {
        let mut icons = icons;
        let ghost all = icon_views(icons@);
        while icons.len() > 0
            invariant
                icons@.len() <= all.len(),
                icon_views(icons@) == all.take(icons@.len() as int),
                self@.segments.len() == old(self)@.segments.len(),
                self@ == (RunView { segments: self@.segments, ..old(self)@ }),
                forall|i: int|
                    0 <= i < self@.segments.len() ==> #[trigger] self@.segments[i] == if icons@.len()
                        <= i < all.len() {
                        SegmentView { icon: all[i], ..old(self)@.segments[i] }
                    } else {
                        old(self)@.segments[i]
                    },
            decreases icons@.len(),
        {
            let at: usize = icons.len() - 1;
            let ghost before = icon_views(icons@);
            let icon = icons.pop().unwrap();
            assert(icon@ == before[at as int]);
            assert(icon_views(icons@) =~= all.take(icons@.len() as int));
            if at < self.segments.len() {
                self.set_segment_icon(at, icon);
            }
        }
        assert(self@.segments =~= old(self)@.with_icons(all).segments);
    }

    /// The names of the registered custom comparisons, in the order in which
    /// they were registered.
    pub fn custom_comparisons(&self) -> (result: &Vec<String>)
        ensures
            name_views(result@) == self@.custom_comparisons,
    {
        &self.custom_comparisons
    }

    /// Whether the custom comparison `name` is registered.
    pub fn has_custom_comparison(&self, name: &str) -> (result: bool)
        ensures
            result == self@.custom_comparisons.contains(name@),
    {
        let mut i: usize = 0;
        while i < self.custom_comparisons.len()
            invariant
                i <= self.custom_comparisons@.len(),
                forall|j: int| 0 <= j < i ==> self@.custom_comparisons[j] != name@,
            decreases self.custom_comparisons@.len() - i,
        {
            if same_text(self.custom_comparisons[i].as_str(), name) {
                assert(self@.custom_comparisons[i as int] == name@);
                return true;
            }
            i += 1;
        }
        false
    }

    /// Registers the custom comparison `name`, unless it is registered
    /// already.
    pub fn add_custom_comparison(&mut self, name: &str)
        ensures
            final(self)@ == (RunView {
                custom_comparisons: if old(self)@.custom_comparisons.contains(name@) {
                    old(self)@.custom_comparisons
                } else {
                    old(self)@.custom_comparisons.push(name@)
                },
                ..old(self)@
            }),
    {
        if !self.has_custom_comparison(name) {
            self.custom_comparisons.push(name.to_owned());
            assert(self@.custom_comparisons =~= old(self)@.custom_comparisons.push(name@));
        }
    }

    /// The attempts made so far, oldest first.
    pub fn attempt_history(&self) -> (result: &Vec<Attempt>)
        ensures
            result@ == self@.attempt_history,
    {
        &self.attempt_history
    }

    /// Appends `attempt` to the history.
    pub fn add_attempt(&mut self, attempt: Attempt)
        ensures
            final(self)@ == (RunView {
                attempt_history: old(self)@.attempt_history.push(attempt),
                ..old(self)@
            }),
    {
        self.attempt_history.push(attempt);
    }
}

} // verus!

//! One segment of a run.

use super::image::Image;
use crate::text::same_text;
use crate::time::Time;
use vstd::prelude::*;

verus! {

/// The name of the comparison that every segment has: the split times of the
/// personal best.
pub const PERSONAL_BEST: &'static str = "Personal Best";

/// One timed checkpoint of a run, with the times that comparisons hold for
/// it.
pub struct Segment {
    name: String,
    icon: Image,
    personal_best_split_time: Time,
    best_segment_time: Time,
    comparisons: Vec<(String, Time)>,
}

/// What a segment holds.
pub struct SegmentView {
    /// The name of the segment.
    pub name: Seq<char>,
    /// The bytes of its icon.
    pub icon: Seq<u8>,
    /// The split time of the personal best at the end of this segment.
    pub personal_best_split_time: Time,
    /// The shortest time ever spent on this segment.
    pub best_segment_time: Time,
    /// The split times of the custom comparisons, by comparison name. A name
    /// occurs at most once; one that does not occur has no time here.
    pub comparisons: Map<Seq<char>, Time>,
}

impl SegmentView {
    /// The time that the comparison `name` holds for the segment: the
    /// personal best split time under its fixed name, the stored time of a
    /// custom comparison, and the time with no entry for a name that the
    /// segment does not know.
    pub open spec fn comparison(self, name: Seq<char>) -> Time {
        if name == PERSONAL_BEST@ {
            self.personal_best_split_time
        } else if self.comparisons.dom().contains(name) {
            self.comparisons[name]
        } else {
            Time::new()
        }
    }

    /// The segment with `time` as the time of the comparison `name`.
    pub open spec fn with_comparison(self, name: Seq<char>, time: Time) -> SegmentView {
        if name == PERSONAL_BEST@ {
            SegmentView { personal_best_split_time: time, ..self }
        } else {
            SegmentView { comparisons: self.comparisons.insert(name, time), ..self }
        }
    }
}

/// The map that a list of named times stands for; where a name occurs more
/// than once its first time counts.
pub open spec fn times_by_name(entries: Seq<(String, Time)>) -> Map<Seq<char>, Time>
    decreases entries.len(),
{
    if entries.len() == 0 {
        Map::empty()
    } else {
        times_by_name(entries.drop_first()).insert(entries[0].0@, entries[0].1)
    }
}

/// A name that no entry bears is not in the map.
proof fn lemma_absent_name(entries: Seq<(String, Time)>, name: Seq<char>)
    requires
        forall|i: int| 0 <= i < entries.len() ==> (#[trigger] entries[i]).0@ != name,
    ensures
        !times_by_name(entries).dom().contains(name),
    decreases entries.len(),
{
    if entries.len() > 0 {
        let rest = entries.drop_first();
        assert forall|i: int| 0 <= i < rest.len() implies (#[trigger] rest[i]).0@ != name by {
            assert(rest[i] == entries[i + 1]);
        }
        lemma_absent_name(rest, name);
    }
}

/// The first entry that bears a name holds the time that the map gives it.
proof fn lemma_first_entry_counts(entries: Seq<(String, Time)>, at: int)
    requires
        0 <= at < entries.len(),
        forall|i: int| 0 <= i < at ==> (#[trigger] entries[i]).0@ != entries[at].0@,
    ensures
        times_by_name(entries).dom().contains(entries[at].0@),
        times_by_name(entries)[entries[at].0@] == entries[at].1,
    decreases entries.len(),
{
    if at > 0 {
        let rest = entries.drop_first();
        assert forall|i: int| 0 <= i < at - 1 implies (#[trigger] rest[i]).0@ != rest[at - 1].0@ by {
            assert(rest[i] == entries[i + 1]);
        }
        assert(rest[at - 1] == entries[at]);
        lemma_first_entry_counts(rest, at - 1);
    }
}

/// Replacing the time of the first entry that bears a name replaces the time
/// of that name in the map.
proof fn lemma_replace_first_entry(entries: Seq<(String, Time)>, at: int, entry: (String, Time))
    requires
        0 <= at < entries.len(),
        entry.0@ == entries[at].0@,
        forall|i: int| 0 <= i < at ==> (#[trigger] entries[i]).0@ != entries[at].0@,
    ensures
        times_by_name(entries.update(at, entry)) == times_by_name(entries).insert(
            entry.0@,
            entry.1,
        ),
    decreases entries.len(),
{
    let updated = entries.update(at, entry);
    if at > 0 {
        let rest = entries.drop_first();
        assert forall|i: int| 0 <= i < at - 1 implies (#[trigger] rest[i]).0@ != rest[at - 1].0@ by {
            assert(rest[i] == entries[i + 1]);
        }
        assert(rest[at - 1] == entries[at]);
        lemma_replace_first_entry(rest, at - 1, entry);
        assert(updated.drop_first() =~= rest.update(at - 1, entry));
        assert(updated[0] == entries[0]);
        assert(entries[0].0@ != entry.0@);
        assert(times_by_name(updated) =~= times_by_name(entries).insert(entry.0@, entry.1));
    } else {
        assert(updated.drop_first() =~= entries.drop_first());
        assert(times_by_name(updated) =~= times_by_name(entries).insert(entry.0@, entry.1));
    }
}

/// Appending an entry whose name no entry bears yet adds that name to the
/// map.
proof fn lemma_append_new_entry(entries: Seq<(String, Time)>, entry: (String, Time))
    requires
        forall|i: int| 0 <= i < entries.len() ==> (#[trigger] entries[i]).0@ != entry.0@,
    ensures
        times_by_name(entries.push(entry)) == times_by_name(entries).insert(entry.0@, entry.1),
    decreases entries.len(),
{
    let extended = entries.push(entry);
    if entries.len() > 0 {
        let rest = entries.drop_first();
        assert forall|i: int| 0 <= i < rest.len() implies (#[trigger] rest[i]).0@ != entry.0@ by {
            assert(rest[i] == entries[i + 1]);
        }
        lemma_append_new_entry(rest, entry);
        assert(extended.drop_first() =~= rest.push(entry));
        assert(extended[0] == entries[0]);
        assert(entries[0].0@ != entry.0@);
        assert(times_by_name(extended) =~= times_by_name(entries).insert(entry.0@, entry.1));
    } else {
        assert(extended.drop_first() =~= entries);
        assert(times_by_name(extended) =~= times_by_name(entries).insert(entry.0@, entry.1));
    }
}

impl View for Segment {
    type V = SegmentView;

    closed spec fn view(&self) -> SegmentView {
        SegmentView {
            name: self.name@,
            icon: self.icon@,
            personal_best_split_time: self.personal_best_split_time,
            best_segment_time: self.best_segment_time,
            comparisons: times_by_name(self.comparisons@),
        }
    }
}

impl Segment {
    /// The segment called `name`, with no icon and no time recorded.
    pub fn new(name: &str) -> (result: Segment)
        ensures
            result@.name == name@,
            result@.icon == Seq::<u8>::empty(),
            result@.personal_best_split_time == Time::new(),
            result@.best_segment_time == Time::new(),
            result@.comparisons == Map::<Seq<char>, Time>::empty(),
    {
        Segment {
            name: name.to_owned(),
            icon: Image::default(),
            personal_best_split_time: Time::new(),
            best_segment_time: Time::new(),
            comparisons: Vec::new(),
        }
    }

    /// The name of the segment.
    pub fn name(&self) -> (result: &str)
        ensures
            result@ == self@.name,
    {
        self.name.as_str()
    }

    /// Gives the segment the name `name`.
    pub fn set_name(&mut self, name: &str)
        ensures
            final(self)@ == (SegmentView { name: name@, ..old(self)@ }),
    {
        self.name = name.to_owned();
    }

    /// The icon of the segment.
    pub fn icon(&self) -> (result: &Image)
        ensures
            result@ == self@.icon,
    {
        &self.icon
    }

    /// Gives the segment the icon `icon`.
    pub fn set_icon(&mut self, icon: Image)
        ensures
            final(self)@ == (SegmentView { icon: icon@, ..old(self)@ }),
    {
        self.icon = icon;
    }

    /// The split time of the personal best at the end of this segment.
    pub fn personal_best_split_time(&self) -> (result: Time)
        ensures
            result == self@.personal_best_split_time,
    {
        self.personal_best_split_time
    }

    /// Sets the split time of the personal best at the end of this segment.
    pub fn set_personal_best_split_time(&mut self, time: Time)
        ensures
            final(self)@ == (SegmentView { personal_best_split_time: time, ..old(self)@ }),
    {
        self.personal_best_split_time = time;
    }

    /// The shortest time ever spent on this segment.
    pub fn best_segment_time(&self) -> (result: Time)
        ensures
            result == self@.best_segment_time,
    {
        self.best_segment_time
    }

    /// Sets the shortest time ever spent on this segment.
    pub fn set_best_segment_time(&mut self, time: Time)
        ensures
            final(self)@ == (SegmentView { best_segment_time: time, ..old(self)@ }),
    {
        self.best_segment_time = time;
    }

    /// The place of the first stored time that bears `name`, if there is one.
    fn find(&self, name: &str) -> (result: Option<usize>)
        ensures
            match result {
                Some(at) => {
                    &&& at < self.comparisons@.len()
                    &&& self.comparisons@[at as int].0@ == name@
                    &&& forall|i: int| 0 <= i < at ==> (#[trigger] self.comparisons@[i]).0@ != name@
                },
                None => forall|i: int|
                    0 <= i < self.comparisons@.len() ==> (#[trigger] self.comparisons@[i]).0@
                        != name@,
            },
    {
        let mut i: usize = 0;
        while i < self.comparisons.len()
            invariant
                i <= self.comparisons@.len(),
                forall|j: int| 0 <= j < i ==> (#[trigger] self.comparisons@[j]).0@ != name@,
            decreases self.comparisons@.len() - i,
        {
            if same_text(self.comparisons[i].0.as_str(), name) {
                return Some(i);
            }
            i += 1;
        }
        None
    }

    /// The time that the comparison `name` holds for this segment. A
    /// comparison that the segment has no time for gives the time with no
    /// entry; this is no error.
    pub fn comparison(&self, name: &str) -> (result: Time)
        ensures
            result == self@.comparison(name@),
    {
        if same_text(name, PERSONAL_BEST) {
            self.personal_best_split_time
        } else {
            match self.find(name) {
                Some(at) => {
                    proof {
                        lemma_first_entry_counts(self.comparisons@, at as int);
                    }
                    self.comparisons[at].1
                },
                None => {
                    proof {
                        lemma_absent_name(self.comparisons@, name@);
                    }
                    Time::new()
                },
            }
        }
    }

    /// Whether the segment stores a time for the custom comparison `name`.
    pub fn has_comparison(&self, name: &str) -> (result: bool)
        ensures
            result == self@.comparisons.dom().contains(name@),
    {
        match self.find(name) {
            Some(at) => {
                proof {
                    lemma_first_entry_counts(self.comparisons@, at as int);
                }
                true
            },
            None => {
                proof {
                    lemma_absent_name(self.comparisons@, name@);
                }
                false
            },
        }
    }

    /// Stores `time` as the time of the comparison `name`, in place of the
    /// time that it had, if any.
    pub fn set_comparison(&mut self, name: &str, time: Time)
        ensures
            final(self)@ == old(self)@.with_comparison(name@, time),
    {
        if same_text(name, PERSONAL_BEST) {
            self.personal_best_split_time = time;
        } else {
            match self.find(name) {
                Some(at) => {
                    let entry = (name.to_owned(), time);
                    proof {
                        lemma_replace_first_entry(self.comparisons@, at as int, entry);
                    }
                    self.comparisons[at] = entry;
                },
                None => {
                    let entry = (name.to_owned(), time);
                    proof {
                        lemma_append_new_entry(self.comparisons@, entry);
                    }
                    self.comparisons.push(entry);
                },
            }
        }
    }
}

} // verus!

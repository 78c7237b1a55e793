//! The splits component: the segments of the run as rows, with the times of
//! the attempt against the comparison.
//!
//! The component shows a window of rows. The window follows the segment
//! that is being run and can be scrolled away from it.

use crate::analysis::state_helper::{split_color, split_color_of};
use crate::layout::general_settings::GeneralSettings;
use crate::settings::color::{Color, Gradient};
use crate::settings::field::{Field, SettingsDescription};
use crate::settings::semantic_color::SemanticColor;
use crate::settings::value::Value;
use crate::time::formatter::delta::{delta_text, Delta};
use crate::time::formatter::regular::regular_text;
use crate::time::formatter::{Accuracy, Regular};
use crate::time::time::{option_sub, sub_entries};
use crate::time::TimeSpan;
use crate::timing::timer::{Timer, TimerView};
use crate::timing::timer_phase::TimerPhase;
use vstd::prelude::*;

verus! {

/// The segments of the run as rows.
pub struct Component {
    settings: Settings,
    scroll_offset: i64,
}

/// The settings of a splits component.
#[derive(Clone, Copy, Debug, PartialEq, Eq, Structural)]
pub struct Settings {
    /// The background shown behind the component.
    pub background: Gradient,
    /// How many rows are shown at most; zero shows all segments.
    pub visual_split_count: u64,
    /// Whether thin lines part the rows.
    pub show_thin_separators: bool,
}

/// What a splits component holds.
pub struct ComponentView {
    /// The settings of the component.
    pub settings: Settings,
    /// How many rows the window is scrolled down from the place where it
    /// follows the attempt; before zero for rows up.
    pub scroll_offset: i64,
}

/// What one row shows.
pub struct SplitState {
    /// The name of the segment.
    pub name: String,
    /// How far the attempt was from the comparison at the end of the
    /// segment, with its sign; empty for a segment that is not done.
    pub delta: String,
    /// The split time of the attempt for a segment that is done, the time of
    /// the comparison otherwise.
    pub time: String,
    /// How the attempt stands at the end of the segment.
    pub semantic_color: SemanticColor,
    /// The color of the delta.
    pub visual_color: Color,
    /// Whether the segment is the one that is being run.
    pub is_current_split: bool,
}

/// What a splits component shows.
pub struct State {
    /// The background shown behind the component.
    pub background: Gradient,
    /// The rows of the window, from top to bottom.
    pub splits: Vec<SplitState>,
    /// Whether thin lines part the rows.
    pub show_thin_separators: bool,
}

/// The split time of the attempt for the segment at `index` in the timing
/// method of the timer, if the segment is done.
pub open spec fn split_of(timer: TimerView, index: int) -> Option<TimeSpan> {
    if 0 <= index < timer.split_times.len() {
        timer.split_times[index].spec_get(timer.timing_method)
    } else {
        None
    }
}

/// The time that the comparison of the timer has for the segment at `index`
/// in the timing method of the timer.
pub open spec fn compared_of(timer: TimerView, index: int) -> Option<TimeSpan> {
    timer.run.segments[index].comparison(timer.comparison).spec_get(timer.timing_method)
}

impl Settings {
    /// The settings of a new splits component, as a specification value.
    pub open spec fn spec_default() -> Settings {
        Settings {
            background: Gradient::Transparent,
            visual_split_count: 16,
            show_thin_separators: true,
        }
    }

    /// Whether the setting at `index` takes `value`.
    pub open spec fn accepts(index: usize, value: Value) -> bool {
        if index == 0 {
            value is Gradient
        } else if index == 1 {
            value is UInt
        } else if index == 2 {
            value is Bool
        } else {
            false
        }
    }

    /// The settings with `value` as the setting at `index`.
    pub open spec fn with_value(self, index: usize, value: Value) -> Settings
        recommends
            Self::accepts(index, value),
    {
        match value {
            Value::Gradient(gradient) if index == 0 => Settings { background: gradient, ..self },
            Value::UInt(count) if index == 1 => Settings { visual_split_count: count, ..self },
            Value::Bool(show) if index == 2 => Settings { show_thin_separators: show, ..self },
            _ => self,
        }
    }

    /// How many rows are shown of a run of `segments` segments: all of them
    /// where the settings ask for no less, the count of the settings
    /// otherwise.
    pub open spec fn shown_count(self, segments: nat) -> nat {
        if self.visual_split_count == 0 || self.visual_split_count >= segments {
            segments
        } else {
            self.visual_split_count as nat
        }
    }
}

impl ComponentView {
    /// The component with these settings before any scrolling.
    pub open spec fn fresh(settings: Settings) -> ComponentView {
        ComponentView { settings, scroll_offset: 0 }
    }

    /// The row that the window follows: the segment that is being run, the
    /// first one while no attempt is in progress, and the last one once the
    /// attempt has ended.
    pub open spec fn focus(timer: TimerView) -> nat {
        match timer.phase {
            TimerPhase::NotRunning => 0,
            TimerPhase::Ended => if timer.run.segments.len() > 0 {
                (timer.run.segments.len() - 1) as nat
            } else {
                0
            },
            TimerPhase::Running | TimerPhase::Paused => timer.split_index,
        }
    }

    /// The first row of the window. Without scrolling the window stands as
    /// far up as it can with the row that it follows in it; scrolling moves
    /// it by whole rows, but never beyond the first or the last segment.
    pub open spec fn first_shown(self, timer: TimerView) -> nat {
        let segments = timer.run.segments.len();
        let count = self.settings.shown_count(segments);
        let focus = Self::focus(timer);
        let base = if focus + 1 > count {
            focus + 1 - count
        } else {
            0
        };
        let wanted = base + self.scroll_offset;
        if wanted < 0 {
            0
        } else if wanted > segments - count {
            (segments - count) as nat
        } else {
            wanted as nat
        }
    }

    /// The component scrolled by `rows` rows down; the offset stops at the
    /// bounds of its counter.
    pub open spec fn scrolled(self, rows: int) -> ComponentView {
        ComponentView {
            scroll_offset: if self.scroll_offset + rows > i64::MAX {
                i64::MAX
            } else if self.scroll_offset + rows < i64::MIN {
                i64::MIN
            } else {
                (self.scroll_offset + rows) as i64
            },
            ..self
        }
    }
}

impl Default for Settings {
    /// No background, at most sixteen rows, and thin lines between them.
    fn default() -> (result: Settings)
        ensures
            result == Settings::spec_default(),
    {
        Settings {
            background: Gradient::Transparent,
            visual_split_count: 16,
            show_thin_separators: true,
        }
    }
}

impl View for Component {
    type V = ComponentView;

    closed spec fn view(&self) -> ComponentView {
        ComponentView { settings: self.settings, scroll_offset: self.scroll_offset }
    }
}

impl SplitState {
    /// Whether this is the row of the segment at `index` of the run of
    /// `timer` in a layout with `layout_settings`.
    ///
    /// A segment that is done shows the split time of the attempt, how far
    /// it is from the comparison, and how the attempt stood there. A segment
    /// that is not done shows the time of the comparison and nothing else.
    /// A time that is missing is written as a single `-`.
    pub open spec fn shows(
        self,
        timer: TimerView,
        layout_settings: GeneralSettings,
        index: int,
    ) -> bool {
        let split = split_of(timer, index);
        let compared = compared_of(timer, index);
        let delta = option_sub(split, compared);
        let semantic_color = if split is Some {
            split_color_of(
                timer,
                delta,
                index,
                true,
                true,
                timer.comparison,
                timer.timing_method,
            )
        } else {
            SemanticColor::Default
        };
        &&& self.name@ == timer.run.segments[index].name
        &&& self.delta@ == if split is Some {
            delta_text(Accuracy::Tenths, delta)
        } else {
            Seq::empty()
        }
        &&& self.time@ == if split is Some {
            regular_text(Accuracy::Seconds, split)
        } else if compared is Some {
            regular_text(Accuracy::Seconds, compared)
        } else {
            seq!['-']
        }
        &&& self.semantic_color == semantic_color
        &&& self.visual_color == semantic_color.spec_visualize(layout_settings)
        &&& self.is_current_split == (timer.phase != TimerPhase::NotRunning && index
            == timer.split_index)
    }
}

impl State {
    /// Whether this is what a splits component `component` shows of `timer`
    /// in a layout with `layout_settings`: the rows of the window, from its
    /// first row on, in the order of the segments.
    pub open spec fn shows(
        self,
        component: ComponentView,
        timer: TimerView,
        layout_settings: GeneralSettings,
    ) -> bool {
        &&& self.background == component.settings.background
        &&& self.show_thin_separators == component.settings.show_thin_separators
        &&& self.splits@.len() == component.settings.shown_count(timer.run.segments.len())
        &&& forall|row: int|
            0 <= row < self.splits@.len() ==> (#[trigger] self.splits@[row]).shows(
                timer,
                layout_settings,
                component.first_shown(timer) + row,
            )
    }
}

/// The window always lies within the run, however far it is scrolled, and
/// a window that is not scrolled holds the row that it follows.
pub proof fn lemma_window_lies_within_the_run(component: ComponentView, timer: TimerView)
    requires
        timer.wf(),
    ensures
        component.first_shown(timer) + component.settings.shown_count(timer.run.segments.len())
            <= timer.run.segments.len(),
        component.scroll_offset == 0 && timer.run.segments.len() > 0 ==> component.first_shown(
            timer,
        ) <= ComponentView::focus(timer) < component.first_shown(timer)
            + component.settings.shown_count(timer.run.segments.len()),
{
}

/// The row of the segment at `index`.
fn row_of(timer: &Timer, layout_settings: &GeneralSettings, index: usize) -> (result: SplitState)
    requires
        index < timer@.run.segments.len(),
    ensures
        result.shows(timer@, *layout_settings, index as int),
{
    let method = timer.current_timing_method();
    let comparison = timer.current_comparison();
    let segment = timer.run().segment(index);
    let split_times = timer.split_times();
    let split = if index < split_times.len() {
        split_times[index].get(method)
    } else {
        None
    };
    let compared = segment.comparison(comparison).get(method);
    let delta = sub_entries(split, compared);
    let (delta_text, semantic_color) = match split {
        Some(_) => (
            Delta::new().format(delta),
            split_color(timer, delta, index, true, true, comparison, method),
        ),
        None => (String::new(), SemanticColor::Default),
    };
    let time = match split {
        Some(split) => Regular::with_accuracy(Accuracy::Seconds).format(Some(split)),
        None => match compared {
            Some(compared) => Regular::with_accuracy(Accuracy::Seconds).format(Some(compared)),
            None => {
                let mut text = String::new();
                text.push('-');
                assert(text@ =~= seq!['-']);
                text
            },
        },
    };
    let is_current_split = match timer.current_split_index() {
        Some(current) => current == index,
        None => false,
    };
    SplitState {
        name: segment.name().to_owned(),
        delta: delta_text,
        time,
        semantic_color,
        visual_color: semantic_color.visualize(layout_settings),
        is_current_split,
    }
}

impl Component {
    /// The splits component with the default settings, not scrolled.
    pub fn new() -> (result: Component)
        ensures
            result@ == ComponentView::fresh(Settings::spec_default()),
    {
        Component { settings: Settings::default(), scroll_offset: 0 }
    }

    /// The splits component with the given settings, not scrolled.
    pub fn with_settings(settings: Settings) -> (result: Component)
        ensures
            result@ == ComponentView::fresh(settings),
    {
        Component { settings, scroll_offset: 0 }
    }

    /// The settings of the component.
    pub fn settings(&self) -> (result: &Settings)
        ensures
            *result == self@.settings,
    {
        &self.settings
    }

    /// The settings of the component, for changing them in place.
    pub fn settings_mut(&mut self) -> (result: &mut Settings)
        ensures
            *result == old(self)@.settings,
            final(self)@ == (ComponentView { settings: *final(result), ..old(self)@ }),
    {
        &mut self.settings
    }

    /// The name of the component.
    pub fn name(&self) -> (result: &'static str)
        ensures
            result@ == "Splits"@,
    {
        "Splits"
    }

    /// Scrolls the window up by one row.
    pub fn scroll_up(&mut self)
        ensures
            final(self)@ == old(self)@.scrolled(-1),
    {
        if self.scroll_offset > i64::MIN {
            self.scroll_offset = self.scroll_offset - 1;
        }
    }

    /// Scrolls the window down by one row.
    pub fn scroll_down(&mut self)
        ensures
            final(self)@ == old(self)@.scrolled(1),
    {
        if self.scroll_offset < i64::MAX {
            self.scroll_offset = self.scroll_offset + 1;
        }
    }

    /// The first row of the window.
    fn first_row(&self, timer: &Timer, count: usize) -> (result: usize)
        requires
            count == self@.settings.shown_count(timer@.run.segments.len()),
        ensures
            result == self@.first_shown(timer@),
            result + count <= timer@.run.segments.len(),
    {
        let segments: usize = timer.run().len();
        let focus: usize = match timer.current_phase() {
            TimerPhase::NotRunning => 0,
            TimerPhase::Ended => if segments > 0 {
                segments - 1
            } else {
                0
            },
            _ => match timer.current_split_index() {
                Some(index) => index,
                None => 0,
            },
        };
        let base: usize = if focus >= count {
            focus - count + 1
        } else {
            0
        };
        let wanted: i128 = (base as i128) + (self.scroll_offset as i128);
        if wanted < 0 {
            0
        } else if wanted > ((segments - count) as i128) {
            segments - count
        } else {
            wanted as usize
        }
    }

    /// What the component shows of `timer`: the rows of its window.
    /// Missing times are no error: each is written as absent.
    pub fn state(&self, timer: &Timer, layout_settings: &GeneralSettings) -> (result: State)
        ensures
            result.shows(self@, timer@, *layout_settings),
    {
        let segments: usize = timer.run().len();
        let count: usize = if self.settings.visual_split_count == 0
            || self.settings.visual_split_count >= segments as u64 {
            segments
        } else {
            self.settings.visual_split_count as usize
        };
        let first: usize = self.first_row(timer, count);
        let mut splits: Vec<SplitState> = Vec::new();
        let mut row: usize = 0;
        while row < count
            invariant
                row <= count,
                segments == timer@.run.segments.len(),
                first + count <= segments,
                splits@.len() == row,
                forall|i: int|
                    0 <= i < row ==> (#[trigger] splits@[i]).shows(
                        timer@,
                        *layout_settings,
                        first + i,
                    ),
            decreases count - row,
        {
            splits.push(row_of(timer, layout_settings, first + row));
            row += 1;
        }
        State {
            background: self.settings.background,
            splits,
            show_thin_separators: self.settings.show_thin_separators,
        }
    }

    /// The settings with their names and values, in the order in which
    /// `set_value` counts them.
    pub fn settings_description(&self) -> (result: SettingsDescription)
        ensures
            result.fields@.len() == 3,
            result.fields@[0].text@ == "Background"@,
            result.fields@[0].value == Value::Gradient(self@.settings.background),
            result.fields@[1].text@ == "Total Splits"@,
            result.fields@[1].value == Value::UInt(self@.settings.visual_split_count),
            result.fields@[2].text@ == "Show Thin Separators"@,
            result.fields@[2].value == Value::Bool(self@.settings.show_thin_separators),
    {
        let settings = &self.settings;
        let mut fields: Vec<Field> = Vec::new();
        fields.push(Field::new("Background".to_owned(), Value::Gradient(settings.background)));
        fields.push(Field::new("Total Splits".to_owned(), Value::UInt(settings.visual_split_count)));
        fields.push(
            Field::new(
                "Show Thin Separators".to_owned(),
                Value::Bool(settings.show_thin_separators),
            ),
        );
        SettingsDescription::with_fields(fields)
    }

    /// Whether the setting at `index` takes `value`.
    pub fn accepts_value(index: usize, value: &Value) -> (result: bool)
        ensures
            result == Settings::accepts(index, *value),
    {
        match index {
            0 => matches!(value, Value::Gradient(_)),
            1 => matches!(value, Value::UInt(_)),
            2 => matches!(value, Value::Bool(_)),
            _ => false,
        }
    }

    /// Sets the setting at `index` to `value`. The index must name a
    /// setting, and the value must be of its kind.
    pub fn set_value(&mut self, index: usize, value: Value)
        requires
            Settings::accepts(index, value),
        ensures
            final(self)@ == (ComponentView {
                settings: old(self)@.settings.with_value(index, value),
                ..old(self)@
            }),
    {
        match value {
            Value::Gradient(gradient) => {
                self.settings.background = gradient;
            },
            Value::UInt(count) => {
                self.settings.visual_split_count = count;
            },
            Value::Bool(show) => {
                self.settings.show_thin_separators = show;
            },
            _ => {},
        }
    }
}

} // verus!

//! The timer component: the time of the attempt as a digital clock, in a
//! color that tells how the attempt stands against the comparison.

use crate::analysis::state_helper::{split_color, split_color_of};
use crate::layout::general_settings::GeneralSettings;
use crate::settings::color::{Color, Gradient};
use crate::settings::field::{Field, SettingsDescription};
use crate::settings::semantic_color::SemanticColor;
use crate::settings::value::Value;
use crate::time::formatter::timer::{time_text, Fraction, Time};
use crate::time::formatter::{fraction_text, magnitude_of, Accuracy, DigitsFormat};
use crate::time::{TimeSpan, TimingMethod};
use crate::timing::timer::{Timer, TimerView};
use crate::timing::timer_phase::TimerPhase;
use vstd::prelude::*;

verus! {

/// The time of the attempt as a digital clock.
pub struct Component {
    settings: Settings,
}

/// The settings of a timer component.
#[derive(Clone, Copy, Debug, PartialEq, Eq, Structural)]
pub struct Settings {
    /// The background shown behind the component.
    pub background: Gradient,
    /// The timing method of the time shown; the one of the timer where none
    /// is given.
    pub timing_method: Option<TimingMethod>,
    /// The height of the component.
    pub height: u32,
    /// A color that is always shown, in place of the one that the standing
    /// of the attempt gives.
    pub color_override: Option<Color>,
    /// Whether the color is shown as a gradient of its shades; otherwise it
    /// is shown as it is.
    pub show_gradient: bool,
    /// The digits of the time that are always shown.
    pub digits_format: DigitsFormat,
    /// The accuracy of the time shown.
    pub accuracy: Accuracy,
}

/// What a timer component shows.
pub struct State {
    /// The background shown behind the component.
    pub background: Gradient,
    /// The time without its decimal places.
    pub time: String,
    /// The decimal places of the time.
    pub fraction: String,
    /// How the attempt stands against the comparison.
    pub semantic_color: SemanticColor,
    /// The color at the top of the time.
    pub top_color: Color,
    /// The color at the bottom of the time.
    pub bottom_color: Color,
    /// The height of the component.
    pub height: u32,
}

impl Settings {
    /// The settings of a new timer component, as a specification value.
    pub open spec fn spec_default() -> Settings {
        Settings {
            background: Gradient::Transparent,
            timing_method: None,
            height: 60,
            color_override: None,
            show_gradient: true,
            digits_format: DigitsFormat::SingleDigitSeconds,
            accuracy: Accuracy::Hundredths,
        }
    }

    /// Whether the setting at `index` takes `value`.
    pub open spec fn accepts(index: usize, value: Value) -> bool {
        if index == 0 {
            value is Gradient
        } else if index == 1 {
            value is OptionalTimingMethod
        } else if index == 2 {
            value is UInt
        } else if index == 3 {
            value is OptionalColor
        } else if index == 4 {
            value is Bool
        } else if index == 5 {
            value is DigitsFormat
        } else if index == 6 {
            value is Accuracy
        } else {
            false
        }
    }

    /// The settings with `value` as the setting at `index`. A height beyond
    /// the range of heights keeps its low thirty-two bits.
    pub open spec fn with_value(self, index: usize, value: Value) -> Settings
        recommends
            Self::accepts(index, value),
    {
        match value {
            Value::Gradient(gradient) if index == 0 => Settings { background: gradient, ..self },
            Value::OptionalTimingMethod(method) if index == 1 => Settings {
                timing_method: method,
                ..self
            },
            Value::UInt(height) if index == 2 => Settings {
                height: (height % 0x1_0000_0000) as u32,
                ..self
            },
            Value::OptionalColor(color) if index == 3 => Settings {
                color_override: color,
                ..self
            },
            Value::Bool(show) if index == 4 => Settings { show_gradient: show, ..self },
            Value::DigitsFormat(digits) if index == 5 => Settings {
                digits_format: digits,
                ..self
            },
            Value::Accuracy(accuracy) if index == 6 => Settings { accuracy, ..self },
            _ => self,
        }
    }

    /// The timing method of the time shown.
    pub open spec fn method_for(self, timer: TimerView) -> TimingMethod {
        match self.timing_method {
            Some(method) => method,
            None => timer.timing_method,
        }
    }

    /// The time shown: the time of the attempt in the timing method of the
    /// component, or in real time where that method has no time.
    pub open spec fn time_of(self, timer: TimerView) -> TimeSpan {
        timer.elapsed(self.timing_method)
    }

    /// How the attempt stands against its comparison.
    ///
    /// While the attempt runs and its time is not before zero, the time is
    /// held against the time of the comparison at the current segment; with
    /// no such time the attempt counts as ahead and gaining. A paused
    /// attempt is paused. An ended attempt is a new personal best if its
    /// time is strictly below the time of the comparison at the last
    /// segment, or if there is no such time, and behind and losing
    /// otherwise: a tie is no new best. In every other case the timer
    /// counts as not running.
    pub open spec fn semantic_color_of(self, timer: TimerView) -> SemanticColor {
        let method = self.method_for(timer);
        let time = self.time_of(timer);
        match timer.phase {
            TimerPhase::Running => if time.ticks >= 0 {
                match timer.run.segments[timer.split_index as int].comparison(
                    timer.comparison,
                ).spec_get(method) {
                    Some(compared) => split_color_of(
                        timer,
                        Some(time.minus(compared)),
                        timer.split_index as int,
                        true,
                        false,
                        timer.comparison,
                        method,
                    ).spec_or(SemanticColor::AheadGainingTime),
                    None => SemanticColor::AheadGainingTime,
                }
            } else {
                SemanticColor::NotRunning
            },
            TimerPhase::Paused => SemanticColor::Paused,
            TimerPhase::Ended => match timer.run.segments.last().comparison(
                timer.comparison,
            ).spec_get(method) {
                Some(compared) => if time.ticks < compared.ticks {
                    SemanticColor::PersonalBest
                } else {
                    SemanticColor::BehindLosingTime
                },
                None => SemanticColor::PersonalBest,
            },
            TimerPhase::NotRunning => SemanticColor::NotRunning,
        }
    }

    /// The color of the time: the fixed color of the settings if there is
    /// one, the color that the layout gives the standing of the attempt
    /// otherwise.
    pub open spec fn color_of(self, timer: TimerView, layout_settings: GeneralSettings) -> Color {
        match self.color_override {
            Some(color) => color,
            None => self.semantic_color_of(timer).spec_visualize(layout_settings),
        }
    }
}

impl Default for Settings {
    /// No background, the timing method of the timer, a height of 60, the
    /// color of the standing as a gradient, and the seconds with two decimal
    /// places.
    fn default() -> (result: Settings)
        ensures
            result == Settings::spec_default(),
    {
        Settings {
            background: Gradient::Transparent,
            timing_method: None,
            height: 60,
            color_override: None,
            show_gradient: true,
            digits_format: DigitsFormat::SingleDigitSeconds,
            accuracy: Accuracy::Hundredths,
        }
    }
}

impl View for Component {
    type V = Settings;

    closed spec fn view(&self) -> Settings {
        self.settings
    }
}

impl State {
    /// Whether this is what a timer component with `settings` shows of
    /// `timer` in a layout with `layout_settings`, where `shade` turns a
    /// color into the two ends of its gradient.
    pub open spec fn shows<F: Fn(Color) -> (Color, Color)>(
        self,
        settings: Settings,
        timer: TimerView,
        layout_settings: GeneralSettings,
        shade: &F,
    ) -> bool {
        let time = settings.time_of(timer);
        let color = settings.color_of(timer, layout_settings);
        &&& self.background == settings.background
        &&& self.time@ == time_text(settings.digits_format, Some(time))
        &&& self.fraction@ == fraction_text(settings.accuracy, magnitude_of(time.ticks as int))
        &&& self.semantic_color == settings.semantic_color_of(timer)
        &&& if settings.show_gradient {
            shade.ensures((color,), (self.top_color, self.bottom_color))
        } else {
            self.top_color == color && self.bottom_color == color
        }
        &&& self.height == settings.height
    }
}

impl Component {
    /// The timer component with the default settings.
    pub fn new() -> (result: Component)
        ensures
            result@ == Settings::spec_default(),
    {
        Component { settings: Settings::default() }
    }

    /// The timer component with the given settings.
    pub fn with_settings(settings: Settings) -> (result: Component)
        ensures
            result@ == settings,
    {
        Component { settings }
    }

    /// The settings of the component.
    pub fn settings(&self) -> (result: &Settings)
        ensures
            *result == self@,
    {
        &self.settings
    }

    /// The settings of the component, for changing them in place.
    pub fn settings_mut(&mut self) -> (result: &mut Settings)
        ensures
            *result == old(self)@,
            final(self)@ == *final(result),
    {
        &mut self.settings
    }

    /// The name of the component.
    pub fn name(&self) -> (result: &'static str)
        ensures
            result@ == "Timer"@,
    {
        "Timer"
    }

    /// How the attempt of `timer` stands against its comparison. Missing
    /// times of the comparison are no error: every case has its answer.
    pub fn semantic_color(&self, timer: &Timer) -> (result: SemanticColor)
        ensures
            result == self@.semantic_color_of(timer@),
    {
        let method = match self.settings.timing_method {
            Some(method) => method,
            None => timer.current_timing_method(),
        };
        let time = self.time(timer);
        let comparison = timer.current_comparison();
        match timer.current_phase() {
            TimerPhase::Running => {
                if time.ticks < 0 {
                    return SemanticColor::NotRunning;
                }
                let index = match timer.current_split_index() {
                    Some(index) => index,
                    None => {
                        return SemanticColor::NotRunning;
                    },
                };
                let compared = timer.run().segment(index).comparison(comparison).get(method);
                match compared {
                    Some(compared) => split_color(
                        timer,
                        Some(time - compared),
                        index,
                        true,
                        false,
                        comparison,
                        method,
                    ).or(SemanticColor::AheadGainingTime),
                    None => SemanticColor::AheadGainingTime,
                }
            },
            TimerPhase::Paused => SemanticColor::Paused,
            TimerPhase::Ended => {
                let run = timer.run();
                let last = run.segment(run.len() - 1);
                match last.comparison(comparison).get(method) {
                    Some(compared) => if time.ticks < compared.ticks {
                        SemanticColor::PersonalBest
                    } else {
                        SemanticColor::BehindLosingTime
                    },
                    None => SemanticColor::PersonalBest,
                }
            },
            TimerPhase::NotRunning => SemanticColor::NotRunning,
        }
    }

    /// The time shown for `timer`.
    pub fn time(&self, timer: &Timer) -> (result: TimeSpan)
        ensures
            result == self@.time_of(timer@),
    {
        timer.elapsed(self.settings.timing_method)
    }

    /// What the component shows of `timer`: the time as text, how the
    /// attempt stands, and the colors of the time. `shade` gives the two
    /// ends of the gradient of a color; it is asked only where the settings
    /// show a gradient.
    pub fn state<F: Fn(Color) -> (Color, Color)>(
        &self,
        timer: &Timer,
        layout_settings: &GeneralSettings,
        shade: &F,
    ) -> (result: State)
        requires
            forall|color: Color| shade.requires((color,)),
        ensures
            result.shows(self@, timer@, *layout_settings, shade),
    {
        let time = self.time(timer);
        let semantic_color = self.semantic_color(timer);
        let color = match self.settings.color_override {
            Some(color) => color,
            None => semantic_color.visualize(layout_settings),
        };
        let (top_color, bottom_color) = if self.settings.show_gradient {
            shade(color)
        } else {
            (color, color)
        };
        State {
            background: self.settings.background,
            time: Time::with_digits_format(self.settings.digits_format).format(Some(time)),
            fraction: Fraction::with_accuracy(self.settings.accuracy).format(Some(time)),
            semantic_color,
            top_color,
            bottom_color,
            height: self.settings.height,
        }
    }

    /// The settings with their names and values, in the order in which
    /// `set_value` counts them.
    pub fn settings_description(&self) -> (result: SettingsDescription)
        ensures
            result.fields@.len() == 7,
            result.fields@[0].text@ == "Background"@,
            result.fields@[0].value == Value::Gradient(self@.background),
            result.fields@[1].text@ == "Timing Method"@,
            result.fields@[1].value == Value::OptionalTimingMethod(self@.timing_method),
            result.fields@[2].text@ == "Height"@,
            result.fields@[2].value == Value::UInt(self@.height as u64),
            result.fields@[3].text@ == "Text Color"@,
            result.fields@[3].value == Value::OptionalColor(self@.color_override),
            result.fields@[4].text@ == "Show Gradient"@,
            result.fields@[4].value == Value::Bool(self@.show_gradient),
            result.fields@[5].text@ == "Digits Format"@,
            result.fields@[5].value == Value::DigitsFormat(self@.digits_format),
            result.fields@[6].text@ == "Accuracy"@,
            result.fields@[6].value == Value::Accuracy(self@.accuracy),
    {
        let settings = &self.settings;
        let mut fields: Vec<Field> = Vec::new();
        fields.push(Field::new("Background".to_owned(), Value::Gradient(settings.background)));
        fields.push(
            Field::new(
                "Timing Method".to_owned(),
                Value::OptionalTimingMethod(settings.timing_method),
            ),
        );
        fields.push(Field::new("Height".to_owned(), Value::UInt(settings.height as u64)));
        fields.push(
            Field::new("Text Color".to_owned(), Value::OptionalColor(settings.color_override)),
        );
        fields.push(Field::new("Show Gradient".to_owned(), Value::Bool(settings.show_gradient)));
        fields.push(
            Field::new("Digits Format".to_owned(), Value::DigitsFormat(settings.digits_format)),
        );
        fields.push(Field::new("Accuracy".to_owned(), Value::Accuracy(settings.accuracy)));
        SettingsDescription::with_fields(fields)
    }

    /// Whether the setting at `index` takes `value`.
    pub fn accepts_value(index: usize, value: &Value) -> (result: bool)
        ensures
            result == Settings::accepts(index, *value),
    {
        match index {
            0 => matches!(value, Value::Gradient(_)),
            1 => matches!(value, Value::OptionalTimingMethod(_)),
            2 => matches!(value, Value::UInt(_)),
            3 => matches!(value, Value::OptionalColor(_)),
            4 => matches!(value, Value::Bool(_)),
            5 => matches!(value, Value::DigitsFormat(_)),
            6 => matches!(value, Value::Accuracy(_)),
            _ => false,
        }
    }

    /// Sets the setting at `index` to `value`. The index must name a
    /// setting, and the value must be of its kind.
    pub fn set_value(&mut self, index: usize, value: Value)
        requires
            Settings::accepts(index, value),
        ensures
            final(self)@ == old(self)@.with_value(index, value),
    {
        match value {
            Value::Gradient(gradient) => {
                self.settings.background = gradient;
            },
            Value::OptionalTimingMethod(method) => {
                self.settings.timing_method = method;
            },
            Value::UInt(height) => {
                self.settings.height = (height % 0x1_0000_0000) as u32;
            },
            Value::OptionalColor(color) => {
                self.settings.color_override = color;
            },
            Value::Bool(show) => {
                self.settings.show_gradient = show;
            },
            Value::DigitsFormat(digits) => {
                self.settings.digits_format = digits;
            },
            Value::Accuracy(accuracy) => {
                self.settings.accuracy = accuracy;
            },
            _ => {},
        }
    }
}

/// While the attempt runs at or after zero, a time ahead of a comparison
/// that has a time for the current segment counts as ahead and gaining where
/// nothing is known of the split before.
pub proof fn lemma_ahead_without_trend_is_gaining(settings: Settings, timer: TimerView)
    requires
        timer.wf(),
        timer.phase == TimerPhase::Running,
        settings.time_of(timer).ticks >= 0,
        timer.run.segments[timer.split_index as int].comparison(timer.comparison).spec_get(
            settings.method_for(timer),
        ) is Some,
        settings.time_of(timer).minus(
            timer.run.segments[timer.split_index as int].comparison(timer.comparison).spec_get(
                settings.method_for(timer),
            )->0,
        ).ticks < 0,
        crate::analysis::state_helper::last_delta_of(
            timer,
            timer.split_index - 1,
            timer.comparison,
            settings.method_for(timer),
        ) is None,
    ensures
        settings.semantic_color_of(timer) == SemanticColor::AheadGainingTime,
{
}

/// While the attempt runs at or after zero, a comparison without a time for
/// the current segment makes the attempt count as ahead and gaining.
pub proof fn lemma_running_without_comparison_is_gaining(settings: Settings, timer: TimerView)
    requires
        timer.phase == TimerPhase::Running,
        settings.time_of(timer).ticks >= 0,
        timer.run.segments[timer.split_index as int].comparison(timer.comparison).spec_get(
            settings.method_for(timer),
        ) is None,
    ensures
        settings.semantic_color_of(timer) == SemanticColor::AheadGainingTime,
{
}

/// An ended attempt whose time equals the time of the comparison at the last
/// segment counts as behind and losing: a tie is no new best. Any time at or
/// above it counts the same, and only a time strictly below it is a new
/// personal best.
pub proof fn lemma_a_tie_is_no_new_best(settings: Settings, timer: TimerView)
    requires
        timer.phase == TimerPhase::Ended,
        timer.run.segments.last().comparison(timer.comparison).spec_get(
            settings.method_for(timer),
        ) is Some,
    ensures
        ({
            let compared = timer.run.segments.last().comparison(timer.comparison).spec_get(
                settings.method_for(timer),
            )->0;
            let time = settings.time_of(timer);
            &&& time == compared ==> settings.semantic_color_of(timer)
                == SemanticColor::BehindLosingTime
            &&& time.ticks >= compared.ticks ==> settings.semantic_color_of(timer)
                == SemanticColor::BehindLosingTime
            &&& time.ticks < compared.ticks ==> settings.semantic_color_of(timer)
                == SemanticColor::PersonalBest
        }),
{
}

/// The phases that have a fixed answer: a paused attempt counts as paused,
/// a timer that is not running as not running, and an ended attempt without
/// a time to hold it against as a new personal best.
pub proof fn lemma_fixed_classifications(settings: Settings, timer: TimerView)
    ensures
        timer.phase == TimerPhase::Paused ==> settings.semantic_color_of(timer)
            == SemanticColor::Paused,
        timer.phase == TimerPhase::NotRunning ==> settings.semantic_color_of(timer)
            == SemanticColor::NotRunning,
        timer.phase == TimerPhase::Ended && timer.run.segments.last().comparison(
            timer.comparison,
        ).spec_get(settings.method_for(timer)) is None ==> settings.semantic_color_of(timer)
            == SemanticColor::PersonalBest,
{
}

} // verus!

//! The previous segment component: how much time the attempt gained or lost
//! on the segment that it ran last.

use crate::analysis::state_helper::{segment_delta, segment_delta_of, split_color, split_color_of};
use crate::layout::general_settings::GeneralSettings;
use crate::settings::color::{Color, Gradient, ONE};
use crate::settings::field::{Field, SettingsDescription};
use crate::settings::semantic_color::SemanticColor;
use crate::settings::value::Value;
use crate::time::formatter::delta::{delta_text, Delta};
use crate::time::formatter::Accuracy;
use crate::time::TimeSpan;
use crate::timing::timer::{Timer, TimerView};
use crate::timing::timer_phase::TimerPhase;
use vstd::prelude::*;

verus! {

/// The time gained or lost on the segment that was run last.
pub struct Component {
    settings: Settings,
}

/// The settings of a previous segment component.
#[derive(Clone, Copy, Debug, PartialEq, Eq, Structural)]
pub struct Settings {
    /// The background shown behind the component.
    pub background: Gradient,
    /// The color of the label; the one of the layout where none is given.
    pub label_color: Option<Color>,
    /// The accuracy of the time shown.
    pub accuracy: Accuracy,
}

/// What a previous segment component shows.
pub struct State {
    /// The background shown behind the component.
    pub background: Gradient,
    /// The color of the label; the one of the layout where none is given.
    pub label_color: Option<Color>,
    /// The text of the label.
    pub text: String,
    /// The time gained or lost on the segment, with its sign.
    pub time: String,
    /// How the time stands against the comparison.
    pub semantic_color: SemanticColor,
    /// The color of the time.
    pub visual_color: Color,
}

/// The faint white gradient behind a row of text.
pub open spec fn default_gradient() -> Gradient {
    Gradient::Vertical(
        Color { red: ONE, green: ONE, blue: ONE, alpha: 0x3d75_c28f },
        Color { red: ONE, green: ONE, blue: ONE, alpha: 0x3ba3_d70a },
    )
}

impl Settings {
    /// The settings of a new previous segment component, as a
    /// specification value.
    pub open spec fn spec_default() -> Settings {
        Settings { background: default_gradient(), label_color: None, accuracy: Accuracy::Tenths }
    }

    /// Whether the setting at `index` takes `value`.
    pub open spec fn accepts(index: usize, value: Value) -> bool {
        if index == 0 {
            value is Gradient
        } else if index == 1 {
            value is OptionalColor
        } else if index == 2 {
            value is Accuracy
        } else {
            false
        }
    }

    /// The settings with `value` as the setting at `index`.
    pub open spec fn with_value(self, index: usize, value: Value) -> Settings
        recommends
            Self::accepts(index, value),
    {
        match value {
            Value::Gradient(gradient) if index == 0 => Settings { background: gradient, ..self },
            Value::OptionalColor(color) if index == 1 => Settings { label_color: color, ..self },
            Value::Accuracy(accuracy) if index == 2 => Settings { accuracy, ..self },
            _ => self,
        }
    }

    /// The time that the attempt of `timer` gained or lost on the segment
    /// that it ran last, against the comparison of the timer and in its
    /// timing method. Nothing while no attempt is in progress, before the
    /// first split, and where a time is missing.
    pub open spec fn delta_of(timer: TimerView) -> Option<TimeSpan> {
        if timer.phase == TimerPhase::NotRunning || timer.split_index == 0 {
            None
        } else {
            segment_delta_of(timer, timer.split_index - 1, timer.comparison, timer.timing_method)
        }
    }

    /// How that time stands: a best segment first, then gained time as
    /// ahead and lost time as behind; nothing is said where there is no
    /// such time.
    pub open spec fn semantic_color_of(timer: TimerView) -> SemanticColor {
        if timer.phase == TimerPhase::NotRunning || timer.split_index == 0 {
            SemanticColor::Default
        } else {
            split_color_of(
                timer,
                Self::delta_of(timer),
                timer.split_index - 1,
                false,
                true,
                timer.comparison,
                timer.timing_method,
            )
        }
    }
}

impl Default for Settings {
    /// A faint background, the label color of the layout, and one decimal
    /// place.
    fn default() -> (result: Settings)
        ensures
            result == Settings::spec_default(),
    {
        Settings {
            background: Gradient::Vertical(
                Color::from_bits(ONE, ONE, ONE, 0x3d75_c28f),
                Color::from_bits(ONE, ONE, ONE, 0x3ba3_d70a),
            ),
            label_color: None,
            accuracy: Accuracy::Tenths,
        }
    }
}

impl View for Component {
    type V = Settings;

    closed spec fn view(&self) -> Settings {
        self.settings
    }
}

impl State {
    /// Whether this is what a previous segment component with `settings`
    /// shows of `timer` in a layout with `layout_settings`.
    pub open spec fn shows(
        self,
        settings: Settings,
        timer: TimerView,
        layout_settings: GeneralSettings,
    ) -> bool {
        &&& self.background == settings.background
        &&& self.label_color == settings.label_color
        &&& self.text@ == "Previous Segment"@
        &&& self.time@ == delta_text(settings.accuracy, Settings::delta_of(timer))
        &&& self.semantic_color == Settings::semantic_color_of(timer)
        &&& self.visual_color == Settings::semantic_color_of(timer).spec_visualize(
            layout_settings,
        )
    }
}

impl Component {
    /// The previous segment component with the default settings.
    pub fn new() -> (result: Component)
        ensures
            result@ == Settings::spec_default(),
    {
        Component { settings: Settings::default() }
    }

    /// The previous segment component with the given settings.
    pub fn with_settings(settings: Settings) -> (result: Component)
        ensures
            result@ == settings,
    {
        Component { settings }
    }

    /// The settings of the component.
    pub fn settings(&self) -> (result: &Settings)
        ensures
            *result == self@,
    {
        &self.settings
    }

    /// The settings of the component, for changing them in place.
    pub fn settings_mut(&mut self) -> (result: &mut Settings)
        ensures
            *result == old(self)@,
            final(self)@ == *final(result),
    {
        &mut self.settings
    }

    /// The name of the component.
    pub fn name(&self) -> (result: &'static str)
        ensures
            result@ == "Previous Segment"@,
    {
        "Previous Segment"
    }

    /// What the component shows of `timer`: the time gained or lost on the
    /// segment that was run last, and how it stands. Missing times are no
    /// error: the time is then written as absent.
    pub fn state(&self, timer: &Timer, layout_settings: &GeneralSettings) -> (result: State)
        ensures
            result.shows(self@, timer@, *layout_settings),
    {
        let comparison = timer.current_comparison();
        let method = timer.current_timing_method();
        let (delta, semantic_color) = match timer.current_split_index() {
            Some(index) => if index > 0 {
                let delta = segment_delta(timer, index - 1, comparison, method);
                (delta, split_color(timer, delta, index - 1, false, true, comparison, method))
            } else {
                (None, SemanticColor::Default)
            },
            None => (None, SemanticColor::Default),
        };
        State {
            background: self.settings.background,
            label_color: self.settings.label_color,
            text: "Previous Segment".to_owned(),
            time: Delta::with_accuracy(self.settings.accuracy).format(delta),
            semantic_color,
            visual_color: semantic_color.visualize(layout_settings),
        }
    }

    /// The settings with their names and values, in the order in which
    /// `set_value` counts them.
    pub fn settings_description(&self) -> (result: SettingsDescription)
        ensures
            result.fields@.len() == 3,
            result.fields@[0].text@ == "Background"@,
            result.fields@[0].value == Value::Gradient(self@.background),
            result.fields@[1].text@ == "Label Color"@,
            result.fields@[1].value == Value::OptionalColor(self@.label_color),
            result.fields@[2].text@ == "Accuracy"@,
            result.fields@[2].value == Value::Accuracy(self@.accuracy),
    {
        let settings = &self.settings;
        let mut fields: Vec<Field> = Vec::new();
        fields.push(Field::new("Background".to_owned(), Value::Gradient(settings.background)));
        fields.push(
            Field::new("Label Color".to_owned(), Value::OptionalColor(settings.label_color)),
        );
        fields.push(Field::new("Accuracy".to_owned(), Value::Accuracy(settings.accuracy)));
        SettingsDescription::with_fields(fields)
    }

    /// Whether the setting at `index` takes `value`.
    pub fn accepts_value(index: usize, value: &Value) -> (result: bool)
        ensures
            result == Settings::accepts(index, *value),
    {
        match index {
            0 => matches!(value, Value::Gradient(_)),
            1 => matches!(value, Value::OptionalColor(_)),
            2 => matches!(value, Value::Accuracy(_)),
            _ => false,
        }
    }

    /// Sets the setting at `index` to `value`. The index must name a
    /// setting, and the value must be of its kind.
    pub fn set_value(&mut self, index: usize, value: Value)
        requires
            Settings::accepts(index, value),
        ensures
            final(self)@ == old(self)@.with_value(index, value),
    {
        match value {
            Value::Gradient(gradient) => {
                self.settings.background = gradient;
            },
            Value::OptionalColor(color) => {
                self.settings.label_color = color;
            },
            Value::Accuracy(accuracy) => {
                self.settings.accuracy = accuracy;
            },
            _ => {},
        }
    }
}

} // verus!

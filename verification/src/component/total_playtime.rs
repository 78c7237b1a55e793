//! The total playtime component: the time that went into the category.

use crate::analysis::total_playtime::calculate;
use crate::settings::color::{Color, Gradient, ONE};
use crate::settings::field::{Field, SettingsDescription};
use crate::settings::value::Value;
use crate::time::formatter::days::days_text;
use crate::time::formatter::regular::regular_text;
use crate::time::formatter::{Accuracy, Days, Regular};
use crate::timing::timer::{Timer, TimerView};
use vstd::prelude::*;

verus! {

/// The time that went into the category, as a label and a value.
pub struct Component {
    settings: Settings,
}

/// The settings of a total playtime component.
#[derive(Clone, Copy, Debug, PartialEq, Eq, Structural)]
pub struct Settings {
    /// The background shown behind the component.
    pub background: Gradient,
    /// Whether the days are counted apart from the hours once the time
    /// reaches a day.
    pub show_days: bool,
    /// The color of the label; the one of the layout where none is given.
    pub label_color: Option<Color>,
    /// The color of the value; the one of the layout where none is given.
    pub value_color: Option<Color>,
}

/// What a total playtime component shows.
pub struct State {
    /// The background shown behind the component.
    pub background: Gradient,
    /// The color of the label; the one of the layout where none is given.
    pub label_color: Option<Color>,
    /// The color of the value; the one of the layout where none is given.
    pub value_color: Option<Color>,
    /// The text of the label.
    pub text: String,
    /// The total playtime.
    pub time: String,
}

/// The faint white gradient behind a row of text.
pub open spec fn default_gradient() -> Gradient {
    Gradient::Vertical(
        Color { red: ONE, green: ONE, blue: ONE, alpha: 0x3d75_c28f },
        Color { red: ONE, green: ONE, blue: ONE, alpha: 0x3ba3_d70a },
    )
}

impl Settings {
    /// The settings of a new total playtime component, as a specification
    /// value.
    pub open spec fn spec_default() -> Settings {
        Settings {
            background: default_gradient(),
            show_days: true,
            label_color: None,
            value_color: None,
        }
    }

    /// Whether the setting at `index` takes `value`.
    pub open spec fn accepts(index: usize, value: Value) -> bool {
        if index == 0 {
            value is Gradient
        } else if index == 1 {
            value is Bool
        } else if index == 2 || index == 3 {
            value is OptionalColor
        } else {
            false
        }
    }

    /// The settings with `value` as the setting at `index`.
    pub open spec fn with_value(self, index: usize, value: Value) -> Settings
        recommends
            Self::accepts(index, value),
    {
        match value {
            Value::Gradient(gradient) if index == 0 => Settings { background: gradient, ..self },
            Value::Bool(show) if index == 1 => Settings { show_days: show, ..self },
            Value::OptionalColor(color) if index == 2 => Settings { label_color: color, ..self },
            Value::OptionalColor(color) if index == 3 => Settings { value_color: color, ..self },
            _ => self,
        }
    }

    /// The total playtime of `timer` as text: with the days counted apart
    /// where the settings ask for it, as hours, minutes and seconds with two
    /// decimal places otherwise.
    pub open spec fn time_text_of(self, timer: TimerView) -> Seq<char> {
        if self.show_days {
            days_text(Some(timer.total_playtime()))
        } else {
            regular_text(Accuracy::Hundredths, Some(timer.total_playtime()))
        }
    }
}

impl Default for Settings {
    /// A faint background, the days counted apart, and the colors of the
    /// layout.
    fn default() -> (result: Settings)
        ensures
            result == Settings::spec_default(),
    {
        Settings {
            background: Gradient::Vertical(
                Color::from_bits(ONE, ONE, ONE, 0x3d75_c28f),
                Color::from_bits(ONE, ONE, ONE, 0x3ba3_d70a),
            ),
            show_days: true,
            label_color: None,
            value_color: None,
        }
    }
}

impl View for Component {
    type V = Settings;

    closed spec fn view(&self) -> Settings {
        self.settings
    }
}

impl State {
    /// Whether this is what a total playtime component with `settings`
    /// shows of `timer`.
    pub open spec fn shows(self, settings: Settings, timer: TimerView) -> bool {
        &&& self.background == settings.background
        &&& self.label_color == settings.label_color
        &&& self.value_color == settings.value_color
        &&& self.text@ == "Total Playtime"@
        &&& self.time@ == settings.time_text_of(timer)
    }
}

impl Component {
    /// The total playtime component with the default settings.
    pub fn new() -> (result: Component)
        ensures
            result@ == Settings::spec_default(),
    {
        Component { settings: Settings::default() }
    }

    /// The total playtime component with the given settings.
    pub fn with_settings(settings: Settings) -> (result: Component)
        ensures
            result@ == settings,
    {
        Component { settings }
    }

    /// The settings of the component.
    pub fn settings(&self) -> (result: &Settings)
        ensures
            *result == self@,
    {
        &self.settings
    }

    /// The settings of the component, for changing them in place.
    pub fn settings_mut(&mut self) -> (result: &mut Settings)
        ensures
            *result == old(self)@,
            final(self)@ == *final(result),
    {
        &mut self.settings
    }

    /// The name of the component.
    pub fn name(&self) -> (result: &'static str)
        ensures
            result@ == "Total Playtime"@,
    {
        "Total Playtime"
    }

    /// What the component shows of `timer`: its label, and the time spent
    /// on the category as text.
    pub fn state(&self, timer: &Timer) -> (result: State)
        ensures
            result.shows(self@, timer@),
    {
        let total = calculate(timer);
        let time = if self.settings.show_days {
            Days::new().format(Some(total))
        } else {
            Regular::new().format(Some(total))
        };
        State {
            background: self.settings.background,
            label_color: self.settings.label_color,
            value_color: self.settings.value_color,
            text: "Total Playtime".to_owned(),
            time,
        }
    }

    /// The settings with their names and values, in the order in which
    /// `set_value` counts them.
    pub fn settings_description(&self) -> (result: SettingsDescription)
        ensures
            result.fields@.len() == 4,
            result.fields@[0].text@ == "Background"@,
            result.fields@[0].value == Value::Gradient(self@.background),
            result.fields@[1].text@ == "Show Days (>24h)"@,
            result.fields@[1].value == Value::Bool(self@.show_days),
            result.fields@[2].text@ == "Label Color"@,
            result.fields@[2].value == Value::OptionalColor(self@.label_color),
            result.fields@[3].text@ == "Value Color"@,
            result.fields@[3].value == Value::OptionalColor(self@.value_color),
    {
        let settings = &self.settings;
        let mut fields: Vec<Field> = Vec::new();
        fields.push(Field::new("Background".to_owned(), Value::Gradient(settings.background)));
        fields.push(Field::new("Show Days (>24h)".to_owned(), Value::Bool(settings.show_days)));
        fields.push(
            Field::new("Label Color".to_owned(), Value::OptionalColor(settings.label_color)),
        );
        fields.push(
            Field::new("Value Color".to_owned(), Value::OptionalColor(settings.value_color)),
        );
        SettingsDescription::with_fields(fields)
    }

    /// Whether the setting at `index` takes `value`.
    pub fn accepts_value(index: usize, value: &Value) -> (result: bool)
        ensures
            result == Settings::accepts(index, *value),
    {
        match index {
            0 => matches!(value, Value::Gradient(_)),
            1 => matches!(value, Value::Bool(_)),
            2 => matches!(value, Value::OptionalColor(_)),
            3 => matches!(value, Value::OptionalColor(_)),
            _ => false,
        }
    }

    /// Sets the setting at `index` to `value`. The index must name a
    /// setting, and the value must be of its kind.
    pub fn set_value(&mut self, index: usize, value: Value)
        requires
            Settings::accepts(index, value),
        ensures
            final(self)@ == old(self)@.with_value(index, value),
    {
        match value {
            Value::Gradient(gradient) => {
                self.settings.background = gradient;
            },
            Value::Bool(show) => {
                self.settings.show_days = show;
            },
            Value::OptionalColor(color) => {
                if index == 2 {
                    self.settings.label_color = color;
                } else {
                    self.settings.value_color = color;
                }
            },
            _ => {},
        }
    }
}

} // verus!

//! The blank space: an empty row of a given height.

use crate::settings::color::Gradient;
use crate::settings::field::{Field, SettingsDescription};
use crate::settings::value::Value;
use crate::timing::timer::Timer;
use vstd::prelude::*;

verus! {

/// An empty row of a layout.
pub struct Component {
    settings: Settings,
}

/// The settings of a blank space.
#[derive(Clone, Copy, Debug, PartialEq, Eq, Structural)]
pub struct Settings {
    /// The background shown behind the component.
    pub background: Gradient,
    /// The height of the component.
    pub height: u32,
}

/// What a blank space shows.
#[derive(Clone, Copy, Debug, PartialEq, Eq, Structural)]
pub struct State {
    /// The background shown behind the component.
    pub background: Gradient,
    /// The height of the component.
    pub height: u32,
}

impl Settings {
    /// The settings of a new blank space, as a specification value.
    pub open spec fn spec_default() -> Settings {
        Settings { background: Gradient::Transparent, height: 24 }
    }

    /// Whether the setting at `index` takes `value`: the background takes a
    /// gradient, the height a number that is not negative.
    pub open spec fn accepts(index: usize, value: Value) -> bool {
        if index == 0 {
            value is Gradient
        } else if index == 1 {
            value is UInt
        } else {
            false
        }
    }

    /// The settings with `value` as the setting at `index`. A height beyond
    /// the range of heights keeps its low thirty-two bits.
    pub open spec fn with_value(self, index: usize, value: Value) -> Settings
        recommends
            Self::accepts(index, value),
    {
        if index == 0 {
            Settings {
                background: match value {
                    Value::Gradient(gradient) => gradient,
                    _ => self.background,
                },
                ..self
            }
        } else {
            Settings {
                height: match value {
                    Value::UInt(height) => (height % 0x1_0000_0000) as u32,
                    _ => self.height,
                },
                ..self
            }
        }
    }
}

impl Default for Settings {
    /// No background and a height of 24.
    fn default() -> (result: Settings)
        ensures
            result == Settings::spec_default(),
    {
        Settings { background: Gradient::Transparent, height: 24 }
    }
}

impl View for Component {
    type V = Settings;

    closed spec fn view(&self) -> Settings {
        self.settings
    }
}

impl Component {
    /// The blank space with the default settings.
    pub fn new() -> (result: Component)
        ensures
            result@ == Settings::spec_default(),
    {
        Component { settings: Settings::default() }
    }

    /// The blank space with the given settings.
    pub fn with_settings(settings: Settings) -> (result: Component)
        ensures
            result@ == settings,
    {
        Component { settings }
    }

    /// The settings of the component.
    pub fn settings(&self) -> (result: &Settings)
        ensures
            *result == self@,
    {
        &self.settings
    }

    /// The settings of the component, for changing them in place.
    pub fn settings_mut(&mut self) -> (result: &mut Settings)
        ensures
            *result == old(self)@,
            final(self)@ == *final(result),
    {
        &mut self.settings
    }

    /// The name of the component.
    pub fn name(&self) -> (result: &'static str)
        ensures
            result@ == "Blank Space"@,
    {
        "Blank Space"
    }

    /// What the component shows: its background and its height, whatever
    /// the timer does.
    pub fn state(&self, _timer: &Timer) -> (result: State)
        ensures
            result == (State { background: self@.background, height: self@.height }),
    {
        State { background: self.settings.background, height: self.settings.height }
    }

    /// The settings with their names and values, in the order in which
    /// `set_value` counts them: the background, then the height.
    pub fn settings_description(&self) -> (result: SettingsDescription)
        ensures
            result.fields@.len() == 2,
            result.fields@[0].text@ == "Background"@,
            result.fields@[0].value == Value::Gradient(self@.background),
            result.fields@[1].text@ == "Height"@,
            result.fields@[1].value == Value::UInt(self@.height as u64),
    {
        let mut fields: Vec<Field> = Vec::new();
        fields.push(Field::new("Background".to_owned(), Value::Gradient(self.settings.background)));
        fields.push(Field::new("Height".to_owned(), Value::UInt(self.settings.height as u64)));
        SettingsDescription::with_fields(fields)
    }

    /// Whether the setting at `index` takes `value`.
    pub fn accepts_value(index: usize, value: &Value) -> (result: bool)
        ensures
            result == Settings::accepts(index, *value),
    {
        match index {
            0 => matches!(value, Value::Gradient(_)),
            1 => matches!(value, Value::UInt(_)),
            _ => false,
        }
    }

    /// Sets the setting at `index` to `value`. The index must name a
    /// setting, and the value must be of its kind.
    pub fn set_value(&mut self, index: usize, value: Value)
        requires
            Settings::accepts(index, value),
        ensures
            final(self)@ == old(self)@.with_value(index, value),
    {
        if index == 0 {
            if let Ok(background) = value.into_gradient() {
                self.settings.background = background;
            }
        } else {
            if let Ok(height) = value.into_uint() {
                self.settings.height = (height % 0x1_0000_0000) as u32;
            }
        }
    }
}

} // verus!

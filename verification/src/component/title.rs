//! The title component: the category that is run, and how often it was
//! tried.

use crate::run::attempt::Attempt;
use crate::settings::color::{Alignment, Color, Gradient, ONE};
use crate::settings::field::{Field, SettingsDescription};
use crate::settings::value::Value;
use crate::timing::timer::{Timer, TimerView};
use vstd::prelude::*;

verus! {

/// The category that is run, with the counts of its attempts.
pub struct Component {
    settings: Settings,
}

/// The settings of a title component.
#[derive(Clone, Copy, Debug, PartialEq, Eq, Structural)]
pub struct Settings {
    /// The background shown behind the component.
    pub background: Gradient,
    /// The color of the text; the one of the layout where none is given.
    pub text_color: Option<Color>,
    /// Whether the name of the category is shown.
    pub show_category_name: bool,
    /// Whether the number of attempts that reached the end is shown.
    pub show_finished_runs_count: bool,
    /// Whether the number of attempts is shown.
    pub show_attempt_count: bool,
    /// Where the text stands.
    pub text_alignment: Alignment,
}

/// What a title component shows.
pub struct State {
    /// The background shown behind the component.
    pub background: Gradient,
    /// The color of the text; the one of the layout where none is given.
    pub text_color: Option<Color>,
    /// The name of the category; empty where it is not shown.
    pub line1: String,
    /// Whether the text stands in the middle.
    pub is_centered: bool,
    /// The number of attempts that reached the end, where it is shown.
    pub finished_runs: Option<u32>,
    /// The number of attempts, where it is shown.
    pub attempts: Option<u32>,
}

/// The faint white gradient behind a title.
pub open spec fn default_gradient() -> Gradient {
    Gradient::Vertical(
        Color { red: ONE, green: ONE, blue: ONE, alpha: 0x3e05_1eb8 },
        Color { red: ONE, green: ONE, blue: ONE, alpha: 0 },
    )
}

/// How many attempts of `history` reached the end: those with a final time
/// in real time.
pub open spec fn finished_runs_of(history: Seq<Attempt>) -> nat
    decreases history.len(),
{
    if history.len() == 0 {
        0
    } else {
        finished_runs_of(history.drop_last()) + if history.last().time.real_time is Some {
            1nat
        } else {
            0nat
        }
    }
}

impl Settings {
    /// The settings of a new title component, as a specification value.
    pub open spec fn spec_default() -> Settings {
        Settings {
            background: default_gradient(),
            text_color: None,
            show_category_name: true,
            show_finished_runs_count: false,
            show_attempt_count: true,
            text_alignment: Alignment::Auto,
        }
    }

    /// Whether the setting at `index` takes `value`.
    pub open spec fn accepts(index: usize, value: Value) -> bool {
        if index == 0 {
            value is Gradient
        } else if index == 1 {
            value is OptionalColor
        } else if index == 2 || index == 3 || index == 4 {
            value is Bool
        } else if index == 5 {
            value is Alignment
        } else {
            false
        }
    }

    /// The settings with `value` as the setting at `index`.
    pub open spec fn with_value(self, index: usize, value: Value) -> Settings
        recommends
            Self::accepts(index, value),
    {
        match value {
            Value::Gradient(gradient) if index == 0 => Settings { background: gradient, ..self },
            Value::OptionalColor(color) if index == 1 => Settings { text_color: color, ..self },
            Value::Bool(show) if index == 2 => Settings { show_category_name: show, ..self },
            Value::Bool(show) if index == 3 => Settings {
                show_finished_runs_count: show,
                ..self
            },
            Value::Bool(show) if index == 4 => Settings { show_attempt_count: show, ..self },
            Value::Alignment(alignment) if index == 5 => Settings {
                text_alignment: alignment,
                ..self
            },
            _ => self,
        }
    }
}

impl Default for Settings {
    /// A faint background, the category name and the number of attempts,
    /// placed where the component sees fit.
    fn default() -> (result: Settings)
        ensures
            result == Settings::spec_default(),
    {
        Settings {
            background: Gradient::Vertical(
                Color::from_bits(ONE, ONE, ONE, 0x3e05_1eb8),
                Color::from_bits(ONE, ONE, ONE, 0),
            ),
            text_color: None,
            show_category_name: true,
            show_finished_runs_count: false,
            show_attempt_count: true,
            text_alignment: Alignment::Auto,
        }
    }
}

impl View for Component {
    type V = Settings;

    closed spec fn view(&self) -> Settings {
        self.settings
    }
}

impl State {
    /// Whether this is what a title component with `settings` shows of
    /// `timer`: the category name where it is shown, in the middle unless
    /// the settings put it at the left, and the counts that are shown; a
    /// count beyond the range of counts stops at its highest value.
    pub open spec fn shows(self, settings: Settings, timer: TimerView) -> bool {
        &&& self.background == settings.background
        &&& self.text_color == settings.text_color
        &&& self.line1@ == if settings.show_category_name {
            timer.run.category_name
        } else {
            Seq::empty()
        }
        &&& self.is_centered == (settings.text_alignment != Alignment::Left)
        &&& self.finished_runs == if settings.show_finished_runs_count {
            Some(
                if finished_runs_of(timer.run.attempt_history) < u32::MAX {
                    finished_runs_of(timer.run.attempt_history) as u32
                } else {
                    u32::MAX
                },
            )
        } else {
            None
        }
        &&& self.attempts == if settings.show_attempt_count {
            Some(timer.run.attempt_count)
        } else {
            None
        }
    }
}

/// Counts the attempts of `history` that reached the end.
fn count_finished_runs(history: &Vec<Attempt>) -> (result: u32)
    ensures
        result == if finished_runs_of(history@) < u32::MAX {
            finished_runs_of(history@) as u32
        } else {
            u32::MAX
        },
{
    let mut count: u32 = 0;
    let mut at: usize = 0;
    while at < history.len()
        invariant
            at <= history@.len(),
            count == if finished_runs_of(history@.take(at as int)) < u32::MAX {
                finished_runs_of(history@.take(at as int)) as u32
            } else {
                u32::MAX
            },
        decreases history@.len() - at,
    {
        proof {
            assert(history@.take(at + 1).drop_last() =~= history@.take(at as int));
            assert(history@.take(at + 1).last() == history@[at as int]);
        }
        if history[at].time.real_time.is_some() && count < u32::MAX {
            count += 1;
        }
        at += 1;
    }
    assert(history@.take(at as int) =~= history@);
    count
}

impl Component {
    /// The title component with the default settings.
    pub fn new() -> (result: Component)
        ensures
            result@ == Settings::spec_default(),
    {
        Component { settings: Settings::default() }
    }

    /// The title component with the given settings.
    pub fn with_settings(settings: Settings) -> (result: Component)
        ensures
            result@ == settings,
    {
        Component { settings }
    }

    /// The settings of the component.
    pub fn settings(&self) -> (result: &Settings)
        ensures
            *result == self@,
    {
        &self.settings
    }

    /// The settings of the component, for changing them in place.
    pub fn settings_mut(&mut self) -> (result: &mut Settings)
        ensures
            *result == old(self)@,
            final(self)@ == *final(result),
    {
        &mut self.settings
    }

    /// The name of the component.
    pub fn name(&self) -> (result: &'static str)
        ensures
            result@ == "Title"@,
    {
        "Title"
    }

    /// What the component shows of `timer`.
    pub fn state(&self, timer: &Timer) -> (result: State)
        ensures
            result.shows(self@, timer@),
    {
        let run = timer.run();
        let line1 = if self.settings.show_category_name {
            run.category_name().to_owned()
        } else {
            String::new()
        };
        let finished_runs = if self.settings.show_finished_runs_count {
            Some(count_finished_runs(run.attempt_history()))
        } else {
            None
        };
        let attempts = if self.settings.show_attempt_count {
            Some(run.attempt_count())
        } else {
            None
        };
        State {
            background: self.settings.background,
            text_color: self.settings.text_color,
            line1,
            is_centered: !matches!(self.settings.text_alignment, Alignment::Left),
            finished_runs,
            attempts,
        }
    }

    /// The settings with their names and values, in the order in which
    /// `set_value` counts them.
    pub fn settings_description(&self) -> (result: SettingsDescription)
        ensures
            result.fields@.len() == 6,
            result.fields@[0].text@ == "Background"@,
            result.fields@[0].value == Value::Gradient(self@.background),
            result.fields@[1].text@ == "Text Color"@,
            result.fields@[1].value == Value::OptionalColor(self@.text_color),
            result.fields@[2].text@ == "Show Category Name"@,
            result.fields@[2].value == Value::Bool(self@.show_category_name),
            result.fields@[3].text@ == "Show Finished Runs Count"@,
            result.fields@[3].value == Value::Bool(self@.show_finished_runs_count),
            result.fields@[4].text@ == "Show Attempt Count"@,
            result.fields@[4].value == Value::Bool(self@.show_attempt_count),
            result.fields@[5].text@ == "Text Alignment"@,
            result.fields@[5].value == Value::Alignment(self@.text_alignment),
    {
        let settings = &self.settings;
        let mut fields: Vec<Field> = Vec::new();
        fields.push(Field::new("Background".to_owned(), Value::Gradient(settings.background)));
        fields.push(Field::new("Text Color".to_owned(), Value::OptionalColor(settings.text_color)));
        fields.push(
            Field::new("Show Category Name".to_owned(), Value::Bool(settings.show_category_name)),
        );
        fields.push(
            Field::new(
                "Show Finished Runs Count".to_owned(),
                Value::Bool(settings.show_finished_runs_count),
            ),
        );
        fields.push(
            Field::new("Show Attempt Count".to_owned(), Value::Bool(settings.show_attempt_count)),
        );
        fields.push(
            Field::new("Text Alignment".to_owned(), Value::Alignment(settings.text_alignment)),
        );
        SettingsDescription::with_fields(fields)
    }

    /// Whether the setting at `index` takes `value`.
    pub fn accepts_value(index: usize, value: &Value) -> (result: bool)
        ensures
            result == Settings::accepts(index, *value),
    {
        match index {
            0 => matches!(value, Value::Gradient(_)),
            1 => matches!(value, Value::OptionalColor(_)),
            2 => matches!(value, Value::Bool(_)),
            3 => matches!(value, Value::Bool(_)),
            4 => matches!(value, Value::Bool(_)),
            5 => matches!(value, Value::Alignment(_)),
            _ => false,
        }
    }

    /// Sets the setting at `index` to `value`. The index must name a
    /// setting, and the value must be of its kind.
    pub fn set_value(&mut self, index: usize, value: Value)
        requires
            Settings::accepts(index, value),
        ensures
            final(self)@ == old(self)@.with_value(index, value),
    {
        match value {
            Value::Gradient(gradient) => {
                self.settings.background = gradient;
            },
            Value::OptionalColor(color) => {
                self.settings.text_color = color;
            },
            Value::Bool(show) => {
                if index == 2 {
                    self.settings.show_category_name = show;
                } else if index == 3 {
                    self.settings.show_finished_runs_count = show;
                } else {
                    self.settings.show_attempt_count = show;
                }
            },
            Value::Alignment(alignment) => {
                self.settings.text_alignment = alignment;
            },
            _ => {},
        }
    }
}

} // verus!

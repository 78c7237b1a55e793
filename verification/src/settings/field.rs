//! The description of the settings of a component.

use super::value::Value;
use vstd::prelude::*;

verus! {

/// One setting: what it is called and the value that it has.
pub struct Field {
    /// The name of the setting.
    pub text: String,
    /// The value of the setting.
    pub value: Value,
}

/// The settings of a component, in the order in which `set_value` counts
/// them.
pub struct SettingsDescription {
    /// One field for each setting.
    pub fields: Vec<Field>,
}

impl Field {
    /// The field called `text` with the value `value`.
    pub fn new(text: String, value: Value) -> (result: Field)
        ensures
            result.text == text,
            result.value == value,
    {
        Field { text, value }
    }
}

impl SettingsDescription {
    /// The description that holds `fields`.
    pub fn with_fields(fields: Vec<Field>) -> (result: SettingsDescription)
        ensures
            result.fields == fields,
    {
        SettingsDescription { fields }
    }
}

} // verus!

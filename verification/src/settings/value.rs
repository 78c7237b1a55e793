//! The value of one setting, whatever its kind.

use super::color::{Alignment, Color, Gradient};
use crate::time::formatter::{Accuracy, DigitsFormat};
use crate::time::TimingMethod;
use vstd::prelude::*;

verus! {

/// The value of one setting. Each kind of setting has its variant; the
/// `into_` functions hand out the value of one kind and refuse every other.
pub enum Value {
    /// A switch.
    Bool(bool),
    /// A number that is not negative.
    UInt(u64),
    /// A whole number.
    Int(i64),
    /// A text.
    String(String),
    /// A text that may be left out.
    OptionalString(Option<String>),
    /// A number in double precision, held by its bits.
    Float(u64),
    /// The accuracy of a time.
    Accuracy(Accuracy),
    /// The digits of a time.
    DigitsFormat(DigitsFormat),
    /// A timing method, or none for the one of the timer.
    OptionalTimingMethod(Option<TimingMethod>),
    /// A color.
    Color(Color),
    /// A color that may be left out.
    OptionalColor(Option<Color>),
    /// A gradient.
    Gradient(Gradient),
    /// An alignment.
    Alignment(Alignment),
}

/// Why a value could not be handed out.
#[derive(Clone, Copy, Debug, PartialEq, Eq, Structural)]
pub enum Error {
    /// The value is of another kind than the one asked for.
    WrongType,
}

impl Value {
    /// The switch, if the value is one.
    pub fn into_bool(self) -> (result: Result<bool, Error>)
        ensures
            result == match self {
                Value::Bool(v) => Ok::<bool, Error>(v),
                _ => Err(Error::WrongType),
            },
    {
        match self {
            Value::Bool(v) => Ok(v),
            _ => Err(Error::WrongType),
        }
    }

    /// The number, if the value is a number that is not negative.
    pub fn into_uint(self) -> (result: Result<u64, Error>)
        ensures
            result == match self {
                Value::UInt(v) => Ok::<u64, Error>(v),
                _ => Err(Error::WrongType),
            },
    {
        match self {
            Value::UInt(v) => Ok(v),
            _ => Err(Error::WrongType),
        }
    }

    /// The number, if the value is a whole number.
    pub fn into_int(self) -> (result: Result<i64, Error>)
        ensures
            result == match self {
                Value::Int(v) => Ok::<i64, Error>(v),
                _ => Err(Error::WrongType),
            },
    {
        match self {
            Value::Int(v) => Ok(v),
            _ => Err(Error::WrongType),
        }
    }

    /// The text, if the value is one.
    pub fn into_string(self) -> (result: Result<String, Error>)
        ensures
            result == match self {
                Value::String(v) => Ok::<String, Error>(v),
                _ => Err(Error::WrongType),
            },
    {
        match self {
            Value::String(v) => Ok(v),
            _ => Err(Error::WrongType),
        }
    }

    /// The text or its absence, if the value is a text that may be left out.
    pub fn into_optional_string(self) -> (result: Result<Option<String>, Error>)
        ensures
            result == match self {
                Value::OptionalString(v) => Ok::<Option<String>, Error>(v),
                _ => Err(Error::WrongType),
            },
    {
        match self {
            Value::OptionalString(v) => Ok(v),
            _ => Err(Error::WrongType),
        }
    }

    /// The bits of the number, if the value is a number in double precision.
    pub fn into_float(self) -> (result: Result<u64, Error>)
        ensures
            result == match self {
                Value::Float(v) => Ok::<u64, Error>(v),
                _ => Err(Error::WrongType),
            },
    {
        match self {
            Value::Float(v) => Ok(v),
            _ => Err(Error::WrongType),
        }
    }

    /// The accuracy, if the value is one.
    pub fn into_accuracy(self) -> (result: Result<Accuracy, Error>)
        ensures
            result == match self {
                Value::Accuracy(v) => Ok::<Accuracy, Error>(v),
                _ => Err(Error::WrongType),
            },
    {
        match self {
            Value::Accuracy(v) => Ok(v),
            _ => Err(Error::WrongType),
        }
    }

    /// The digits format, if the value is one.
    pub fn into_digits_format(self) -> (result: Result<DigitsFormat, Error>)
        ensures
            result == match self {
                Value::DigitsFormat(v) => Ok::<DigitsFormat, Error>(v),
                _ => Err(Error::WrongType),
            },
    {
        match self {
            Value::DigitsFormat(v) => Ok(v),
            _ => Err(Error::WrongType),
        }
    }

    /// The timing method or its absence, if the value is a timing method
    /// that may be left out.
    pub fn into_optional_timing_method(self) -> (result: Result<Option<TimingMethod>, Error>)
        ensures
            result == match self {
                Value::OptionalTimingMethod(v) => Ok::<Option<TimingMethod>, Error>(v),
                _ => Err(Error::WrongType),
            },
    {
        match self {
            Value::OptionalTimingMethod(v) => Ok(v),
            _ => Err(Error::WrongType),
        }
    }

    /// The color, if the value is one.
    pub fn into_color(self) -> (result: Result<Color, Error>)
        ensures
            result == match self {
                Value::Color(v) => Ok::<Color, Error>(v),
                _ => Err(Error::WrongType),
            },
    {
        match self {
            Value::Color(v) => Ok(v),
            _ => Err(Error::WrongType),
        }
    }

    /// The color or its absence, if the value is a color that may be left
    /// out.
    pub fn into_optional_color(self) -> (result: Result<Option<Color>, Error>)
        ensures
            result == match self {
                Value::OptionalColor(v) => Ok::<Option<Color>, Error>(v),
                _ => Err(Error::WrongType),
            },
    {
        match self {
            Value::OptionalColor(v) => Ok(v),
            _ => Err(Error::WrongType),
        }
    }

    /// The gradient, if the value is one.
    pub fn into_gradient(self) -> (result: Result<Gradient, Error>)
        ensures
            result == match self {
                Value::Gradient(v) => Ok::<Gradient, Error>(v),
                _ => Err(Error::WrongType),
            },
    {
        match self {
            Value::Gradient(v) => Ok(v),
            _ => Err(Error::WrongType),
        }
    }

    /// The alignment, if the value is one.
    pub fn into_alignment(self) -> (result: Result<Alignment, Error>)
        ensures
            result == match self {
                Value::Alignment(v) => Ok::<Alignment, Error>(v),
                _ => Err(Error::WrongType),
            },
    {
        match self {
            Value::Alignment(v) => Ok(v),
            _ => Err(Error::WrongType),
        }
    }
}

impl From<bool> for Value {
    /// The value of a switch.
    fn from(value: bool) -> (result: Value) {
        Value::Bool(value)
    }
}

impl vstd::std_specs::convert::FromSpecImpl<bool> for Value {
    open spec fn obeys_from_spec() -> bool {
        true
    }

    open spec fn from_spec(value: bool) -> Value {
        Value::Bool(value)
    }
}

impl From<u64> for Value {
    /// The value of a number that is not negative.
    fn from(value: u64) -> (result: Value) {
        Value::UInt(value)
    }
}

impl vstd::std_specs::convert::FromSpecImpl<u64> for Value {
    open spec fn obeys_from_spec() -> bool {
        true
    }

    open spec fn from_spec(value: u64) -> Value {
        Value::UInt(value)
    }
}

impl From<i64> for Value {
    /// The value of a whole number.
    fn from(value: i64) -> (result: Value) {
        Value::Int(value)
    }
}

impl vstd::std_specs::convert::FromSpecImpl<i64> for Value {
    open spec fn obeys_from_spec() -> bool {
        true
    }

    open spec fn from_spec(value: i64) -> Value {
        Value::Int(value)
    }
}

impl From<String> for Value {
    /// The value of a text.
    fn from(value: String) -> (result: Value) {
        Value::String(value)
    }
}

impl vstd::std_specs::convert::FromSpecImpl<String> for Value {
    open spec fn obeys_from_spec() -> bool {
        true
    }

    open spec fn from_spec(value: String) -> Value {
        Value::String(value)
    }
}

impl From<Option<String>> for Value {
    /// The value of a text that may be left out.
    fn from(value: Option<String>) -> (result: Value) {
        Value::OptionalString(value)
    }
}

impl vstd::std_specs::convert::FromSpecImpl<Option<String>> for Value {
    open spec fn obeys_from_spec() -> bool {
        true
    }

    open spec fn from_spec(value: Option<String>) -> Value {
        Value::OptionalString(value)
    }
}

impl From<Accuracy> for Value {
    /// The value of an accuracy.
    fn from(value: Accuracy) -> (result: Value) {
        Value::Accuracy(value)
    }
}

impl vstd::std_specs::convert::FromSpecImpl<Accuracy> for Value {
    open spec fn obeys_from_spec() -> bool {
        true
    }

    open spec fn from_spec(value: Accuracy) -> Value {
        Value::Accuracy(value)
    }
}

impl From<DigitsFormat> for Value {
    /// The value of a digits format.
    fn from(value: DigitsFormat) -> (result: Value) {
        Value::DigitsFormat(value)
    }
}

impl vstd::std_specs::convert::FromSpecImpl<DigitsFormat> for Value {
    open spec fn obeys_from_spec() -> bool {
        true
    }

    open spec fn from_spec(value: DigitsFormat) -> Value {
        Value::DigitsFormat(value)
    }
}

impl From<Option<TimingMethod>> for Value {
    /// The value of a timing method that may be left out.
    fn from(value: Option<TimingMethod>) -> (result: Value) {
        Value::OptionalTimingMethod(value)
    }
}

impl vstd::std_specs::convert::FromSpecImpl<Option<TimingMethod>> for Value {
    open spec fn obeys_from_spec() -> bool {
        true
    }

    open spec fn from_spec(value: Option<TimingMethod>) -> Value {
        Value::OptionalTimingMethod(value)
    }
}

impl From<Color> for Value {
    /// The value of a color.
    fn from(value: Color) -> (result: Value) {
        Value::Color(value)
    }
}

impl vstd::std_specs::convert::FromSpecImpl<Color> for Value {
    open spec fn obeys_from_spec() -> bool {
        true
    }

    open spec fn from_spec(value: Color) -> Value {
        Value::Color(value)
    }
}

impl From<Option<Color>> for Value {
    /// The value of a color that may be left out.
    fn from(value: Option<Color>) -> (result: Value) {
        Value::OptionalColor(value)
    }
}

impl vstd::std_specs::convert::FromSpecImpl<Option<Color>> for Value {
    open spec fn obeys_from_spec() -> bool {
        true
    }

    open spec fn from_spec(value: Option<Color>) -> Value {
        Value::OptionalColor(value)
    }
}

impl From<Gradient> for Value {
    /// The value of a gradient.
    fn from(value: Gradient) -> (result: Value) {
        Value::Gradient(value)
    }
}

impl vstd::std_specs::convert::FromSpecImpl<Gradient> for Value {
    open spec fn obeys_from_spec() -> bool {
        true
    }

    open spec fn from_spec(value: Gradient) -> Value {
        Value::Gradient(value)
    }
}

impl From<Alignment> for Value {
    /// The value of an alignment.
    fn from(value: Alignment) -> (result: Value) {
        Value::Alignment(value)
    }
}

impl vstd::std_specs::convert::FromSpecImpl<Alignment> for Value {
    open spec fn obeys_from_spec() -> bool {
        true
    }

    open spec fn from_spec(value: Alignment) -> Value {
        Value::Alignment(value)
    }
}

} // verus!

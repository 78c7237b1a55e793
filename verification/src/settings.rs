//! The values that settings are made of.

pub mod color;
pub mod field;
pub mod semantic_color;
pub mod value;

pub use self::color::{Alignment, Color, Gradient};
pub use self::field::{Field, SettingsDescription};
pub use self::semantic_color::SemanticColor;
pub use self::value::Value;

//! The layout: components in a column, with the settings that they share.

pub mod component;
pub mod general_settings;
pub mod layout;

pub use self::component::{Component, ComponentSettings, ComponentState, ComponentView};
pub use self::general_settings::GeneralSettings;
pub use self::layout::{Layout, LayoutSettings, LayoutState, LayoutView};

//! Timing and comparison engine for speedrun timers.
//!
//! The crate holds the time values, the run and segment model, the attempt
//! state machine, the analyses that classify a live attempt against a
//! comparison, the time formatters, the reader for WSplit splits files, and
//! the components that turn the state of a timer into what a user interface
//! shows. Every function carries a contract that is proved for all inputs.

pub mod analysis;
pub mod component;
pub mod layout;
pub mod run;
pub mod settings;
pub mod text;
pub mod time;
pub mod timing;

pub use crate::layout::{GeneralSettings as GeneralLayoutSettings, Layout};
pub use crate::run::{Attempt, Image, Run, Segment};
pub use crate::time::{Time, TimeSpan, TimingMethod};
pub use crate::timing::{Timer, TimerPhase};

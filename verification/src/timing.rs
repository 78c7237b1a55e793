//! The attempt state machine.

pub mod timer;
pub mod timer_phase;

pub use self::timer::{Timer, TimerView};
pub use self::timer_phase::TimerPhase;

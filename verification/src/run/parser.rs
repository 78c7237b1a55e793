//! Readers for the splits files of other timers.

pub mod number;
pub mod wsplit;

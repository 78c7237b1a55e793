//! The components of a layout. Each one turns the state of a timer into the
//! values that a user interface shows.

pub mod blank_space;
pub mod previous_segment;
pub mod splits;
pub mod timer;
pub mod title;
pub mod total_playtime;

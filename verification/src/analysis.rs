//! What can be read off a timer: how the attempt stands against a
//! comparison, and how much time went into the category.

pub mod state_helper;
pub mod total_playtime;

pub use self::state_helper::{check_best_segment, last_delta, segment_delta, split_color};

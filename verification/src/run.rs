//! The run: an ordered sequence of segments with their comparisons, and the
//! history of the attempts made on it.

pub mod attempt;
pub mod image;
pub mod parser;
pub mod run;
pub mod segment;

pub use self::attempt::Attempt;
pub use self::image::Image;
pub use self::run::{Run, RunView};
pub use self::segment::{Segment, SegmentView, PERSONAL_BEST};

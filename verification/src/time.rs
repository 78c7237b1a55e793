//! Durations, the timing methods and the per-method bundle of durations.

pub mod formatter;
pub mod time;
pub mod time_span;
pub mod timing_method;

pub use self::time::Time;
pub use self::time_span::TimeSpan;
pub use self::timing_method::TimingMethod;

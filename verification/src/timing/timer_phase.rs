//! The phases of an attempt.

use vstd::prelude::*;

verus! {

/// The phase that a timer is in.
#[derive(Clone, Copy, Debug, PartialEq, Eq, Structural, Hash)]
pub enum TimerPhase {
    /// No attempt is in progress.
    NotRunning,
    /// An attempt is in progress and its time is running.
    Running,
    /// The attempt in progress has passed its last segment.
    Ended,
    /// An attempt is in progress and its time stands still.
    Paused,
}

} // verus!

//! The bases on which a duration can be measured.

use vstd::prelude::*;

verus! {

/// The basis on which a duration is measured.
#[derive(Clone, Copy, Debug, PartialEq, Eq, Structural, Hash)]
pub enum TimingMethod {
    /// Wall-clock time, as it passes outside the game.
    RealTime,
    /// Time as the game counts it, without loading times.
    GameTime,
}

} // verus!

//! What the components need to know of how times are measured and shown.

use vstd::prelude::*;

verus! {

/// How many digits of the fraction of a second a time is shown with.
#[derive(Clone, Copy, Debug, PartialEq, Eq, Hash, Structural)]
pub enum Accuracy {
    /// No fraction: `0`.
    Seconds,
    /// One digit: `0.1`.
    Tenths,
    /// Two digits: `0.12`.
    Hundredths,
    /// Three digits: `0.123`.
    Milliseconds,
}

/// The clock by which a time is measured.
#[derive(Clone, Copy, Debug, PartialEq, Eq, Hash, Structural)]
pub enum TimingMethod {
    /// The time that passes in the real world.
    RealTime,
    /// The time that passes in the game.
    GameTime,
}

} // verus!

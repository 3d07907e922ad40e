//! Shared radar configuration enums: measurement profile and idle state.

use vstd::prelude::*;

verus! {

/// Radar measurement profile, trading range for update rate and precision.
#[derive(Clone, Copy, Debug, PartialEq, Eq, Structural)]
pub enum RadarProfile {
    /// Shortest pulses, best depth resolution.
    Profile1,
    /// Short pulses.
    Profile2,
    /// Medium pulses.
    Profile3,
    /// Long pulses.
    Profile4,
    /// Longest pulses, best radar loop gain.
    Profile5,
}

/// Idle state the sensor keeps between frames; deeper states save power but
/// wake more slowly.
#[derive(Clone, Copy, Debug, PartialEq, Eq, Structural)]
pub enum RadarIdleState {
    /// Deepest sleep between frames.
    DeepSleep,
    /// Light sleep between frames.
    Sleep,
    /// Stays ready between frames; fastest wake-up.
    Ready,
}

} // verus!

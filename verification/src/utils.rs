//! Helper types used throughout the application.
use vstd::prelude::*;

verus! {

/// Waveforms of the simple LFO generator.
#[derive(Debug, Clone, Copy, PartialEq, Eq, Structural)]
pub enum Waveform {
    Sine,
    Triangle,
    Saw,
    Square,
    Random,
}

/// Whether the next frame should be rendered: at least the target frame
/// interval has passed since the last one (both in nanoseconds).
pub fn frame_due(elapsed_ns: u128, target_interval_ns: u128) -> (r: bool)
    ensures
        r == (elapsed_ns >= target_interval_ns),
{
    elapsed_ns >= target_interval_ns
}

} // verus!

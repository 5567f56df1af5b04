//! LFO waveform selection.
use vstd::prelude::*;

verus! {

/// LFO waveforms, numbered 0 to 4 in this order.
#[derive(Debug, Clone, Copy, PartialEq, Eq, Structural)]
pub enum Waveform {
    Sine,
    Triangle,
    Ramp,
    Saw,
    Square,
}

/// The waveform selected by an integer code: 0 to 4 pick the waveforms in
/// declaration order, anything else is `Sine`.
pub open spec fn waveform_from_code(val: i32) -> Waveform {
    if val == 1 {
        Waveform::Triangle
    } else if val == 2 {
        Waveform::Ramp
    } else if val == 3 {
        Waveform::Saw
    } else if val == 4 {
        Waveform::Square
    } else {
        Waveform::Sine
    }
}

impl Waveform {
    /// The integer code of a waveform.
    pub open spec fn spec_code(self) -> i32 {
        match self {
            Waveform::Sine => 0,
            Waveform::Triangle => 1,
            Waveform::Ramp => 2,
            Waveform::Saw => 3,
            Waveform::Square => 4,
        }
    }
}

impl From<i32> for Waveform {
    fn from(val: i32) -> (r: Self) {
        match val {
            0 => Waveform::Sine,
            1 => Waveform::Triangle,
            2 => Waveform::Ramp,
            3 => Waveform::Saw,
            4 => Waveform::Square,
            _ => Waveform::Sine,
        }
    }
}

impl vstd::std_specs::convert::FromSpecImpl<i32> for Waveform {
    open spec fn obeys_from_spec() -> bool {
        true
    }

    open spec fn from_spec(v: i32) -> Waveform {
        waveform_from_code(v)
    }
}

/// Decoding a waveform's own code gives the waveform back.
pub proof fn law_waveform_code_roundtrip(w: Waveform)
    ensures
        waveform_from_code(w.spec_code()) == w,
        0 <= w.spec_code() <= 4,
{
}

} // verus!

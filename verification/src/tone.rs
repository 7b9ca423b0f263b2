//! The waveforms offered by the output test, and their order on screen.
use vstd::prelude::*;

verus! {

/// The shapes of the output test tone.
#[derive(Clone, Copy, PartialEq, Eq, Structural, Debug)]
pub enum Waveform {
    Sine,
    Square,
    Sawtooth,
    Triangle,
    WhiteNoise,
    Sweep,
}

/// How many waveforms the selector offers.
pub const WAVEFORM_COUNT: usize = 6;

/// The position of `w` in the selector.
pub open spec fn index_of(w: Waveform) -> nat {
    match w {
        Waveform::Sine => 0,
        Waveform::Square => 1,
        Waveform::Sawtooth => 2,
        Waveform::Triangle => 3,
        Waveform::WhiteNoise => 4,
        Waveform::Sweep => 5,
    }
}

/// The waveform at selector position `i`; positions past the fifth give the
/// sweep.
pub open spec fn waveform_at(i: nat) -> Waveform {
    if i == 0 {
        Waveform::Sine
    } else if i == 1 {
        Waveform::Square
    } else if i == 2 {
        Waveform::Sawtooth
    } else if i == 3 {
        Waveform::Triangle
    } else if i == 4 {
        Waveform::WhiteNoise
    } else {
        Waveform::Sweep
    }
}

impl Waveform {
    /// The waveform at selector position `i`; any position past the fifth
    /// selects the sweep.
    pub fn from_index(i: usize) -> (r: Waveform)
        ensures
            r == waveform_at(i as nat),
    {
        match i {
            0 => Waveform::Sine,
            1 => Waveform::Square,
            2 => Waveform::Sawtooth,
            3 => Waveform::Triangle,
            4 => Waveform::WhiteNoise,
            _ => Waveform::Sweep,
        }
    }

    /// The selector position of this waveform.
    pub fn index(self) -> (r: usize)
        ensures
            r == index_of(self),
            r < WAVEFORM_COUNT,
    {
        match self {
            Waveform::Sine => 0,
            Waveform::Square => 1,
            Waveform::Sawtooth => 2,
            Waveform::Triangle => 3,
            Waveform::WhiteNoise => 4,
            Waveform::Sweep => 5,
        }
    }

    /// The label shown on the selector button.
    pub fn label(self) -> (r: &'static str)
        ensures
            self == Waveform::Sine ==> r@ == "Sine"@,
            self == Waveform::Square ==> r@ == "Square"@,
            self == Waveform::Sawtooth ==> r@ == "Saw"@,
            self == Waveform::Triangle ==> r@ == "Triangle"@,
            self == Waveform::WhiteNoise ==> r@ == "Noise"@,
            self == Waveform::Sweep ==> r@ == "Sweep"@,
    {
        match self {
            Waveform::Sine => "Sine",
            Waveform::Square => "Square",
            Waveform::Sawtooth => "Saw",
            Waveform::Triangle => "Triangle",
            Waveform::WhiteNoise => "Noise",
            Waveform::Sweep => "Sweep",
        }
    }

    /// Whether the tone frequency sweeps instead of following the slider.
    pub fn is_sweep(self) -> (r: bool)
        ensures
            r == (self == Waveform::Sweep),
    {
        match self {
            Waveform::Sweep => true,
            _ => false,
        }
    }
}

/// Selecting a waveform by its position gives it back, and each position of
/// the selector names its own waveform.
pub proof fn lemma_index_round_trip(w: Waveform, i: nat)
    requires
        i < WAVEFORM_COUNT,
    ensures
        waveform_at(index_of(w)) == w,
        index_of(waveform_at(i)) == i,
{
}

} // verus!

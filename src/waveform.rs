use vstd::prelude::*;

verus! {

/// Number of waveforms an oscillator can select.
pub const WAVE_TYPES: u8 = 7;

/// The periodic shapes an oscillator can produce, in the order of their
/// selection index.
#[derive(Debug, Clone, Copy, PartialEq, Eq, Structural)]
pub enum Waveform {
    Sine,
    Saw,
    ReversedSaw,
    Square,
    Triangle,
    RoundedSine,
    Noise,
}

impl Waveform {
    /// The waveform at selection index `index`; an index past the last
    /// waveform falls back to the sine.
    pub open spec fn spec_from_index(index: u8) -> Waveform {
        if index == 1 {
            Waveform::Saw
        } else if index == 2 {
            Waveform::ReversedSaw
        } else if index == 3 {
            Waveform::Square
        } else if index == 4 {
            Waveform::Triangle
        } else if index == 5 {
            Waveform::RoundedSine
        } else if index == 6 {
            Waveform::Noise
        } else {
            Waveform::Sine
        }
    }

    /// The name shown to a user for the waveform.
    pub open spec fn spec_name(self) -> Seq<char> {
        match self {
            Waveform::Sine => "Sine"@,
            Waveform::Saw => "Saw"@,
            Waveform::ReversedSaw => "Reversed Saw"@,
            Waveform::Square => "Square"@,
            Waveform::Triangle => "Triangle"@,
            Waveform::RoundedSine => "Sine Rounded"@,
            Waveform::Noise => "Noise"@,
        }
    }

    pub fn from_index(index: u8) -> (r: Waveform)
        ensures
            r == Waveform::spec_from_index(index),
    {
        match index {
            1 => Waveform::Saw,
            2 => Waveform::ReversedSaw,
            3 => Waveform::Square,
            4 => Waveform::Triangle,
            5 => Waveform::RoundedSine,
            6 => Waveform::Noise,
            _ => Waveform::Sine,
        }
    }

    pub fn name(&self) -> (r: String)
        ensures
            r@ == self.spec_name(),
    {
        match self {
            Waveform::Sine => "Sine".to_owned(),
            Waveform::Saw => "Saw".to_owned(),
            Waveform::ReversedSaw => "Reversed Saw".to_owned(),
            Waveform::Square => "Square".to_owned(),
            Waveform::Triangle => "Triangle".to_owned(),
            Waveform::RoundedSine => "Sine Rounded".to_owned(),
            Waveform::Noise => "Noise".to_owned(),
        }
    }
}

/// The name of the waveform at selection index `index`.
pub fn wave_type_text(index: u8) -> (r: String)
    ensures
        r@ == Waveform::spec_from_index(index).spec_name(),
{
    Waveform::from_index(index).name()
}

} // verus!

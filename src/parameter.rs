use vstd::prelude::*;

verus! {

/// Number of oscillators in the bank.
pub const OSCILLATOR_COUNT: usize = 3;

/// Number of host-visible parameters: three per oscillator, then pan,
/// attack and decay.
pub const PARAMETER_COUNT: i32 = 12;

/// What a host parameter index addresses.
#[derive(Debug, Clone, Copy, PartialEq, Eq, Structural)]
pub enum Parameter {
    /// The waveform selection of an oscillator, by its position in the bank.
    OscWaveform(usize),
    /// The volume of an oscillator.
    OscVolume(usize),
    /// The pitch bend of an oscillator.
    OscPitchBend(usize),
    Pan,
    Attack,
    Decay,
}

impl Parameter {
    /// Indices `3 * k`, `3 * k + 1` and `3 * k + 2` address the waveform,
    /// volume and pitch bend of oscillator `k`; the three after them address
    /// pan, attack and decay; any other index addresses nothing.
    pub open spec fn spec_from_index(index: i32) -> Option<Parameter> {
        if 0 <= index < 3 * OSCILLATOR_COUNT {
            let osc = (index / 3) as usize;
            if index % 3 == 0 {
                Some(Parameter::OscWaveform(osc))
            } else if index % 3 == 1 {
                Some(Parameter::OscVolume(osc))
            } else {
                Some(Parameter::OscPitchBend(osc))
            }
        } else if index == 9 {
            Some(Parameter::Pan)
        } else if index == 10 {
            Some(Parameter::Attack)
        } else if index == 11 {
            Some(Parameter::Decay)
        } else {
            None
        }
    }

    pub fn from_index(index: i32) -> (r: Option<Parameter>)
        ensures
            r == Parameter::spec_from_index(index),
            r is Some <==> 0 <= index < PARAMETER_COUNT,
    {
        if 0 <= index && index < 3 * OSCILLATOR_COUNT as i32 {
            let osc = (index / 3) as usize;
            if index % 3 == 0 {
                Some(Parameter::OscWaveform(osc))
            } else if index % 3 == 1 {
                Some(Parameter::OscVolume(osc))
            } else {
                Some(Parameter::OscPitchBend(osc))
            }
        } else if index == 9 {
            Some(Parameter::Pan)
        } else if index == 10 {
            Some(Parameter::Attack)
        } else if index == 11 {
            Some(Parameter::Decay)
        } else {
            None
        }
    }
}

/// The name a host shows for parameter `index`; empty for an index that
/// addresses nothing.
pub open spec fn spec_parameter_name(index: i32) -> Seq<char> {
    if index == 0 {
        "Osc 1"@
    } else if index == 1 {
        "Osc 1 Volume"@
    } else if index == 2 {
        "Osc 1 Pitch"@
    } else if index == 3 {
        "Osc 2"@
    } else if index == 4 {
        "Osc 2 Volume"@
    } else if index == 5 {
        "Osc 2 Pitch"@
    } else if index == 6 {
        "Osc 3"@
    } else if index == 7 {
        "Osc 3 Volume"@
    } else if index == 8 {
        "Osc 3 Pitch"@
    } else if index == 9 {
        "Pan"@
    } else if index == 10 {
        "Attack"@
    } else if index == 11 {
        "Decay"@
    } else {
        ""@
    }
}

pub fn parameter_name(index: i32) -> (r: String)
    ensures
        r@ == spec_parameter_name(index),
{
    match index {
        0 => "Osc 1".to_owned(),
        1 => "Osc 1 Volume".to_owned(),
        2 => "Osc 1 Pitch".to_owned(),
        3 => "Osc 2".to_owned(),
        4 => "Osc 2 Volume".to_owned(),
        5 => "Osc 2 Pitch".to_owned(),
        6 => "Osc 3".to_owned(),
        7 => "Osc 3 Volume".to_owned(),
        8 => "Osc 3 Pitch".to_owned(),
        9 => "Pan".to_owned(),
        10 => "Attack".to_owned(),
        11 => "Decay".to_owned(),
        _ => "".to_owned(),
    }
}

} // verus!

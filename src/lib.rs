//! Signal-generation core of a small polyphonic synthesizer: the register of
//! sounding notes, MIDI note messages, waveform selection, pitch-bend
//! quantisation and the host parameter table.

pub mod note;
pub mod registry;
pub mod waveform;
pub mod pitch;
pub mod parameter;

use vstd::prelude::*;

verus! {

/// A sounding key: its MIDI pitch and the velocity it was struck with.
///
/// Two notes are equal when their pitches are equal; the velocity plays no
/// part in lookup or removal.
#[derive(Debug, Clone, Copy)]
pub struct Note {
    pitch: u8,
    velocity: u8,
}

impl Note {
    /// The pitch of the note.
    pub closed spec fn spec_pitch(self) -> u8 {
        self.pitch
    }

    /// The velocity of the note.
    pub closed spec fn spec_velocity(self) -> u8 {
        self.velocity
    }

    /// The note of `pitch` struck with `velocity`.
    pub closed spec fn spec_new(pitch: u8, velocity: u8) -> Note {
        Note { pitch, velocity }
    }

    /// A note made from a pitch and a velocity has that pitch and velocity.
    pub broadcast proof fn lemma_new_fields(pitch: u8, velocity: u8)
        ensures
            (#[trigger] Note::spec_new(pitch, velocity)).spec_pitch() == pitch,
            Note::spec_new(pitch, velocity).spec_velocity() == velocity,
    {
    }

    pub fn new(pitch: u8, velocity: u8) -> (r: Note)
        ensures
            r == Note::spec_new(pitch, velocity),
            r.spec_pitch() == pitch,
            r.spec_velocity() == velocity,
    {
        Note { pitch: pitch, velocity: velocity }
    }

    pub fn get_pitch(&self) -> (r: u8)
        ensures
            r == self.spec_pitch(),
    {
        self.pitch
    }

    pub fn set_pitch(&mut self, pitch: u8)
        ensures
            final(self).spec_pitch() == pitch,
            final(self).spec_velocity() == old(self).spec_velocity(),
    {
        self.pitch = pitch;
    }

    pub fn get_velocity(&self) -> (r: u8)
        ensures
            r == self.spec_velocity(),
    {
        self.velocity
    }

    pub fn set_velocity(&mut self, velocity: u8)
        ensures
            final(self).spec_velocity() == velocity,
            final(self).spec_pitch() == old(self).spec_pitch(),
    {
        self.velocity = velocity;
    }
}

impl PartialEq for Note {
    fn eq(&self, other: &Note) -> (r: bool)
        ensures
            r == (self.spec_pitch() == other.spec_pitch()),
    {
        self.pitch == other.pitch
    }
}

impl vstd::std_specs::cmp::PartialEqSpecImpl for Note {
    open spec fn obeys_eq_spec() -> bool {
        true
    }

    open spec fn eq_spec(&self, other: &Note) -> bool {
        self.spec_pitch() == other.spec_pitch()
    }
}

} // verus!

use vstd::prelude::*;

use crate::note::Note;

verus! {

/// MIDI status byte of a note-off message.
pub const NOTE_OFF_STATUS: u8 = 0x80;

/// MIDI status byte of a note-on message.
pub const NOTE_ON_STATUS: u8 = 0x90;

/// `i` is the first position of `notes` that holds `pitch`.
pub open spec fn is_first_of_pitch(notes: Seq<Note>, pitch: u8, i: int) -> bool {
    &&& 0 <= i < notes.len()
    &&& notes[i].spec_pitch() == pitch
    &&& forall|j: int| 0 <= j < i ==> notes[j].spec_pitch() != pitch
}

/// Some note of `notes` has `pitch`.
pub open spec fn holds_pitch(notes: Seq<Note>, pitch: u8) -> bool {
    exists|i: int| 0 <= i < notes.len() && notes[i].spec_pitch() == pitch
}

/// `notes` after a note-on: the new note is appended, whatever already sounds.
pub open spec fn pressed(notes: Seq<Note>, note: Note) -> Seq<Note> {
    notes.push(note)
}

/// `notes` after a note-off for `pitch`: the first note of that pitch is
/// removed, and nothing changes when none sounds.
pub open spec fn released(notes: Seq<Note>, pitch: u8) -> Seq<Note> {
    if exists|i: int| is_first_of_pitch(notes, pitch, i) {
        notes.remove(choose|i: int| is_first_of_pitch(notes, pitch, i))
    } else {
        notes
    }
}

/// `notes` after the three bytes of a MIDI message: a note-off releases the
/// pitch of the second byte, a note-on presses it with the velocity of the
/// third, and any other status leaves the notes as they are.
pub open spec fn after_midi(notes: Seq<Note>, data: Seq<u8>) -> Seq<Note> {
    if data[0] == NOTE_OFF_STATUS {
        released(notes, data[1])
    } else if data[0] == NOTE_ON_STATUS {
        pressed(notes, Note::spec_new(data[1], data[2]))
    } else {
        notes
    }
}

/// At most one position is the first one of a pitch.
proof fn lemma_first_unique(notes: Seq<Note>, pitch: u8, i: int, k: int)
    requires
        is_first_of_pitch(notes, pitch, i),
        is_first_of_pitch(notes, pitch, k),
    ensures
        i == k,
{
}

/// Striking a note and then releasing its pitch leaves the notes as they were
/// whenever that pitch was not sounding before; from no notes at all this
/// gives no notes again.
pub proof fn lemma_press_then_release(notes: Seq<Note>, note: Note)
    requires
        !holds_pitch(notes, note.spec_pitch()),
    ensures
        released(pressed(notes, note), note.spec_pitch()) == notes,
        notes.len() == 0 ==> released(pressed(notes, note), note.spec_pitch()).len() == 0,
{
    let s = pressed(notes, note);
    let p = note.spec_pitch();
    let i = notes.len() as int;
    assert(s[i] == note);
    assert forall|j: int| 0 <= j < i implies s[j].spec_pitch() != p by {
        assert(s[j] == notes[j]);
    }
    assert(is_first_of_pitch(s, p, i));
    let c = choose|k: int| is_first_of_pitch(s, p, k);
    lemma_first_unique(s, p, i, c);
    assert(s.remove(i) =~= notes);
}

/// Striking two notes of different pitches on silence and then releasing one
/// of the pitches leaves exactly the other note sounding.
pub proof fn lemma_release_one_of_two(a: Note, b: Note)
    requires
        a.spec_pitch() != b.spec_pitch(),
    ensures
        released(pressed(pressed(Seq::empty(), a), b), a.spec_pitch()) == seq![b],
        released(pressed(pressed(Seq::empty(), a), b), b.spec_pitch()) == seq![a],
{
    let s = pressed(pressed(Seq::<Note>::empty(), a), b);
    assert(s[0] == a && s[1] == b && s.len() == 2);
    assert(is_first_of_pitch(s, a.spec_pitch(), 0));
    let ca = choose|k: int| is_first_of_pitch(s, a.spec_pitch(), k);
    lemma_first_unique(s, a.spec_pitch(), 0, ca);
    assert(s.remove(0) =~= seq![b]);
    assert(is_first_of_pitch(s, b.spec_pitch(), 1));
    let cb = choose|k: int| is_first_of_pitch(s, b.spec_pitch(), k);
    lemma_first_unique(s, b.spec_pitch(), 1, cb);
    assert(s.remove(1) =~= seq![a]);
}

/// The notes that sound, in the order in which they were struck.
pub struct NoteRegistry {
    notes: Vec<Note>,
}

impl View for NoteRegistry {
    type V = Seq<Note>;

    closed spec fn view(&self) -> Seq<Note> {
        self.notes@
    }
}

impl NoteRegistry {
    pub fn new() -> (r: NoteRegistry)
        ensures
            r@ == Seq::<Note>::empty(),
    {
        NoteRegistry { notes: Vec::new() }
    }

    /// Whether no note sounds.
    pub fn is_empty(&self) -> (r: bool)
        ensures
            r == (self@.len() == 0),
    {
        self.notes.len() == 0
    }

    /// The number of notes that sound.
    pub fn len(&self) -> (r: usize)
        ensures
            r == self@.len(),
    {
        self.notes.len()
    }

    /// The sounding notes, oldest first.
    pub fn notes(&self) -> (r: &[Note])
        ensures
            r@ == self@,
    {
        self.notes.as_slice()
    }

    /// Starts a note. A pitch that already sounds gets a second entry.
    pub fn note_on(&mut self, note: Note)
        requires
            old(self)@.len() < usize::MAX,
        ensures
            final(self)@ == pressed(old(self)@, note),
    {
        self.notes.push(note);
    }

    /// Stops the oldest note of `pitch`; does nothing when none sounds.
    pub fn note_off(&mut self, pitch: u8)
        ensures
            final(self)@ == released(old(self)@, pitch),
    {
        let n = self.notes.len();
        let mut i: usize = 0;
        while i < n
            invariant
                n == self.notes@.len(),
                self.notes@ == old(self).notes@,
                i <= n,
                forall|j: int| 0 <= j < i ==> self.notes@[j].spec_pitch() != pitch,
            decreases n - i,
        {
            if self.notes[i].get_pitch() == pitch {
                proof {
                    let s = self.notes@;
                    assert(is_first_of_pitch(s, pitch, i as int));
                    let c = choose|k: int| is_first_of_pitch(s, pitch, k);
                    lemma_first_unique(s, pitch, i as int, c);
                }
                self.notes.remove(i);
                return;
            }
            i = i + 1;
        }
        assert(!exists|k: int| is_first_of_pitch(self.notes@, pitch, k));
    }

    /// Applies one MIDI message given as its three bytes.
    pub fn process_midi_event(&mut self, data: [u8; 3])
        requires
            data[0] == NOTE_ON_STATUS ==> old(self)@.len() < usize::MAX,
        ensures
            final(self)@ == after_midi(old(self)@, data@),
    {
        if data[0] == NOTE_OFF_STATUS {
            self.note_off(data[1]);
        } else if data[0] == NOTE_ON_STATUS {
            self.note_on(Note::new(data[1], data[2]));
        }
    }
}

} // verus!

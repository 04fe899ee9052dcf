use rvst::note::Note;
use rvst::registry::NoteRegistry;

#[test]
fn new_registry_is_empty() {
    let r = NoteRegistry::new();
    assert!(r.is_empty());
    assert_eq!(r.len(), 0);
}

#[test]
fn note_on_then_off_empties() {
    let mut r = NoteRegistry::new();
    r.note_on(Note::new(69, 100));
    assert!(!r.is_empty());
    r.note_off(69);
    assert!(r.is_empty());
}

#[test]
fn note_off_removes_only_matching() {
    let mut r = NoteRegistry::new();
    r.note_on(Note::new(60, 90));
    r.note_on(Note::new(64, 80));
    r.note_off(60);
    assert_eq!(r.len(), 1);
    assert_eq!(r.notes()[0].get_pitch(), 64);
    assert_eq!(r.notes()[0].get_velocity(), 80);
}

#[test]
fn note_off_of_absent_pitch_changes_nothing() {
    let mut r = NoteRegistry::new();
    r.note_on(Note::new(60, 90));
    r.note_off(61);
    assert_eq!(r.len(), 1);
    assert_eq!(r.notes()[0].get_pitch(), 60);
    let mut e = NoteRegistry::new();
    e.note_off(60);
    assert!(e.is_empty());
}

#[test]
fn duplicate_pitches_accumulate_and_release_oldest_first() {
    let mut r = NoteRegistry::new();
    r.note_on(Note::new(60, 10));
    r.note_on(Note::new(62, 20));
    r.note_on(Note::new(60, 30));
    assert_eq!(r.len(), 3);
    r.note_off(60);
    assert_eq!(r.len(), 2);
    assert_eq!(r.notes()[0].get_pitch(), 62);
    assert_eq!(r.notes()[1].get_pitch(), 60);
    assert_eq!(r.notes()[1].get_velocity(), 30);
    r.note_off(60);
    assert_eq!(r.len(), 1);
    assert_eq!(r.notes()[0].get_pitch(), 62);
}

#[test]
fn midi_note_on_and_off() {
    let mut r = NoteRegistry::new();
    r.process_midi_event([0x90, 69, 100]);
    assert_eq!(r.len(), 1);
    assert_eq!(r.notes()[0].get_pitch(), 69);
    assert_eq!(r.notes()[0].get_velocity(), 100);
    r.process_midi_event([0x80, 69, 0]);
    assert!(r.is_empty());
}

#[test]
fn midi_other_status_is_ignored() {
    let mut r = NoteRegistry::new();
    r.process_midi_event([0x90, 60, 64]);
    r.process_midi_event([0xB0, 60, 0]);
    r.process_midi_event([0xE0, 0, 64]);
    r.process_midi_event([0x81, 60, 0]);
    assert_eq!(r.len(), 1);
    assert_eq!(r.notes()[0].get_pitch(), 60);
}

#[test]
fn midi_note_on_with_zero_velocity_still_sounds() {
    let mut r = NoteRegistry::new();
    r.process_midi_event([0x90, 60, 0]);
    assert_eq!(r.len(), 1);
    assert_eq!(r.notes()[0].get_velocity(), 0);
}

#[test]
fn extreme_pitches_and_velocities() {
    let mut r = NoteRegistry::new();
    r.note_on(Note::new(0, 127));
    r.note_on(Note::new(127, 0));
    r.note_off(127);
    assert_eq!(r.len(), 1);
    assert_eq!(r.notes()[0].get_pitch(), 0);
    assert_eq!(r.notes()[0].get_velocity(), 127);
    r.note_off(0);
    assert!(r.is_empty());
}

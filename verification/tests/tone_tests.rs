use alarm_clock::note::MidiNote;
use alarm_clock::tone::Buzzer;

#[test]
fn notes_pulse_once_their_half_period_passes() {
    let mut buzzer = Buzzer::new();
    // A4 at 440 Hz: its half-period is 1e9 / 440000 = 2272 microseconds.
    buzzer.add_note(MidiNote(69), 0);

    assert!(!buzzer.update(2272));
    assert!(buzzer.update(2273));
    // The stamp advanced by exactly one period, so the next pulse is due
    // one period after the previous one, not after "now".
    assert!(!buzzer.update(4544));
    assert!(buzzer.update(4545));
}

#[test]
fn removed_and_cleared_notes_stay_silent() {
    let mut buzzer = Buzzer::new();
    buzzer.add_note(MidiNote(69), 0);
    buzzer.remove_note(&MidiNote(69));
    assert!(!buzzer.update(1_000_000));

    buzzer.add_note(MidiNote(69), 0);
    buzzer.add_note(MidiNote(57), 0);
    buzzer.clear();
    assert!(!buzzer.update(1_000_000));

    // Removing one of two notes leaves the other sounding.
    buzzer.add_note(MidiNote(69), 0);
    buzzer.add_note(MidiNote(57), 0);
    buzzer.remove_note(&MidiNote(57));
    assert!(buzzer.update(1_000_000));
}

#[test]
fn re_adding_a_note_restamps_it() {
    let mut buzzer = Buzzer::new();
    buzzer.add_note(MidiNote(69), 0);
    // Re-adding the same note replaces its stamp with the new time.
    buzzer.add_note(MidiNote(69), 10_000);
    assert!(!buzzer.update(12_272));
    assert!(buzzer.update(12_273));
}

use alarm_clock::message::{BuzzerMessage, PlayerMessage};
use alarm_clock::midi::{parse_midi, MidiError, TrackEvent, TrackEventKind};
use alarm_clock::note::MidiNote;
use alarm_clock::player::{
    delta_to_micros, midi_to_buzzer, playback_poll, Playback, PlayerDirective,
};
use alarm_clock::text::song_name;

/// A two-track file: track A plays key 60 at once, track B plays key 62
/// ten ticks in (50 ms at the default tempo and 100 ticks per beat).
fn two_track_file() -> Vec<u8> {
    let mut v = vec![
        0x4D, 0x54, 0x68, 0x64, // MThd
        0x00, 0x00, 0x00, 0x06, // header length 6
        0x00, 0x01, // format 1
        0x00, 0x02, // two tracks
        0x00, 0x64, // 100 ticks per beat
    ];
    v.extend_from_slice(&[
        0x4D, 0x54, 0x72, 0x6B, // MTrk
        0x00, 0x00, 0x00, 0x08, // 8 bytes
        0x00, 0x90, 0x3C, 0x40, // at 0: note on, key 60, velocity 64
        0x00, 0xFF, 0x2F, 0x00, // end of track
    ]);
    v.extend_from_slice(&[
        0x4D, 0x54, 0x72, 0x6B, // MTrk
        0x00, 0x00, 0x00, 0x08, // 8 bytes
        0x0A, 0x90, 0x3E, 0x40, // 10 ticks in: note on, key 62, velocity 64
        0x00, 0xFF, 0x2F, 0x00, // end of track
    ]);
    v
}

#[test]
fn parses_two_track_file() {
    let bytes = two_track_file();
    let file = parse_midi(&bytes).unwrap();
    assert_eq!(file.ticks_per_beat, 100);
    assert_eq!(file.tracks.len(), 2);
    assert_eq!(
        file.tracks[0],
        vec![
            TrackEvent { delta: 0, kind: TrackEventKind::NoteOn { key: 60, vel: 64 } },
            TrackEvent { delta: 0, kind: TrackEventKind::Other },
        ]
    );
    assert_eq!(
        file.tracks[1],
        vec![
            TrackEvent { delta: 10, kind: TrackEventKind::NoteOn { key: 62, vel: 64 } },
            TrackEvent { delta: 0, kind: TrackEventKind::Other },
        ]
    );
}

#[test]
fn parses_running_status_and_tempo() {
    let mut v = vec![
        0x4D, 0x54, 0x68, 0x64, 0x00, 0x00, 0x00, 0x06, 0x00, 0x00, 0x00, 0x01, 0x00, 0x60,
    ];
    v.extend_from_slice(&[
        0x4D, 0x54, 0x72, 0x6B, 0x00, 0x00, 0x00, 0x12, // 18 bytes
        0x00, 0xFF, 0x51, 0x03, 0x0F, 0x42, 0x40, // tempo: one million
        0x00, 0x90, 0x3C, 0x40, // note on, key 60
        0x08, 0x3C, 0x00, // running status: key 60, velocity 0
        0x00, 0xFF, 0x2F, 0x00, // end of track
    ]);
    let file = parse_midi(&v).unwrap();
    assert_eq!(file.tracks.len(), 1);
    assert_eq!(file.tracks[0][0].kind, TrackEventKind::Tempo(1_000_000));
    assert_eq!(
        file.tracks[0][2],
        TrackEvent { delta: 8, kind: TrackEventKind::NoteOn { key: 60, vel: 0 } }
    );
}

#[test]
fn rejects_smpte_timing() {
    let mut bytes = two_track_file();
    bytes[12] = 0xE2; // SMPTE division
    assert_eq!(parse_midi(&bytes).unwrap_err(), MidiError::UnsupportedTiming);
    let mut bytes = two_track_file();
    bytes[12] = 0x00;
    bytes[13] = 0x00; // zero ticks per beat
    assert_eq!(parse_midi(&bytes).unwrap_err(), MidiError::UnsupportedTiming);
}

#[test]
fn rejects_bad_header_and_truncation() {
    assert_eq!(parse_midi(&[]).unwrap_err(), MidiError::Truncated);
    let mut bytes = two_track_file();
    bytes[0] = 0x4E;
    assert_eq!(parse_midi(&bytes).unwrap_err(), MidiError::BadHeader);
    let bytes = two_track_file();
    assert_eq!(parse_midi(&bytes[..20]).unwrap_err(), MidiError::Truncated);
}

#[test]
fn rejects_bad_event() {
    let mut v = vec![
        0x4D, 0x54, 0x68, 0x64, 0x00, 0x00, 0x00, 0x06, 0x00, 0x00, 0x00, 0x01, 0x00, 0x60,
    ];
    // A data byte with no status to run under.
    v.extend_from_slice(&[0x4D, 0x54, 0x72, 0x6B, 0x00, 0x00, 0x00, 0x02, 0x00, 0x3C]);
    assert_eq!(parse_midi(&v).unwrap_err(), MidiError::BadEvent);
}

#[test]
fn scheduler_emits_in_time_order_across_tracks() {
    let bytes = two_track_file();
    let file = parse_midi(&bytes).unwrap();
    let mut pb = Playback::new(file, 0);

    // At the start only track A's event is due.
    let first = pb.tick(0);
    assert_eq!(first.len(), 1);
    assert!(matches!(
        first[0],
        BuzzerMessage::Note { on: true, note: MidiNote(60) }
    ));

    // Nothing further is due before 50 ms.
    let none = pb.tick(49_999);
    assert_eq!(none.len(), 0);
    assert!(!pb.done());

    // At 50 ms track B's event fires: later polls never emit earlier
    // notes than earlier polls did.
    let second = pb.tick(50_000);
    assert_eq!(second.len(), 1);
    assert!(matches!(
        second[0],
        BuzzerMessage::Note { on: true, note: MidiNote(62) }
    ));
    assert!(pb.done());
}

#[test]
fn tempo_changes_stretch_later_deltas() {
    let mut v = vec![
        0x4D, 0x54, 0x68, 0x64, 0x00, 0x00, 0x00, 0x06, 0x00, 0x00, 0x00, 0x01, 0x00, 0x64,
    ];
    v.extend_from_slice(&[
        0x4D, 0x54, 0x72, 0x6B, 0x00, 0x00, 0x00, 0x0B, // 11 bytes
        0x00, 0xFF, 0x51, 0x03, 0x0F, 0x42, 0x40, // tempo: one million per beat
        0x0A, 0x90, 0x3C, 0x40, // 10 ticks later: note on
    ]);
    let file = parse_midi(&v).unwrap();
    let mut pb = Playback::new(file, 0);
    // Under the new tempo 10 ticks span 100 ms, not 50.
    assert_eq!(pb.tick(99_999).len(), 0);
    assert_eq!(pb.tick(100_000).len(), 1);
}

#[test]
fn playback_poll_priorities() {
    let bytes = two_track_file();

    // An exhausted song finishes even when a command is pending.
    let mut pb = Playback::new(parse_midi(&bytes).unwrap(), 0);
    pb.tick(0);
    pb.tick(50_000);
    let d = playback_poll(&mut pb, Some(PlayerMessage::Stop), 60_000);
    assert!(matches!(d, PlayerDirective::Finished));

    // A pending command preempts a song that still has events.
    let mut pb = Playback::new(parse_midi(&bytes).unwrap(), 0);
    let d = playback_poll(&mut pb, Some(PlayerMessage::Play("next.mid".to_string())), 0);
    match d {
        PlayerDirective::Switch(p, looped) => {
            assert_eq!(p, "next.mid");
            assert!(!looped);
        },
        _ => panic!("expected a switch"),
    }
    let d = playback_poll(&mut pb, Some(PlayerMessage::Stop), 0);
    assert!(matches!(d, PlayerDirective::Stopped));

    // With no command the due notes come through.
    let d = playback_poll(&mut pb, None, 0);
    match d {
        PlayerDirective::Notes(v) => assert_eq!(v.len(), 1),
        _ => panic!("expected notes"),
    }
}

#[test]
fn note_commands_follow_velocity() {
    let on = midi_to_buzzer(TrackEventKind::NoteOn { key: 60, vel: 64 });
    assert_eq!(on, Some((true, MidiNote(60))));
    let off = midi_to_buzzer(TrackEventKind::NoteOn { key: 60, vel: 0 });
    assert_eq!(off, Some((false, MidiNote(60))));
    let off = midi_to_buzzer(TrackEventKind::NoteOff { key: 61, vel: 40 });
    assert_eq!(off, Some((false, MidiNote(61))));
    let touch = midi_to_buzzer(TrackEventKind::Aftertouch { key: 62, vel: 1 });
    assert_eq!(touch, Some((true, MidiNote(62))));
    assert_eq!(midi_to_buzzer(TrackEventKind::Tempo(500_000)), None);
    assert_eq!(midi_to_buzzer(TrackEventKind::Other), None);
}

#[test]
fn delta_conversion_is_exact() {
    assert_eq!(delta_to_micros(100, 500_000, 10), 50_000);
    assert_eq!(delta_to_micros(96, 500_000, 96), 500_000);
    assert_eq!(delta_to_micros(3, 500_000, 1), 166_666);
    assert_eq!(delta_to_micros(1, u32::MAX, u32::MAX), u32::MAX as u64 * u32::MAX as u64);
}

#[test]
fn song_names_drop_directory_and_extension() {
    let name = |p: &str| song_name(p).into_iter().collect::<String>();
    assert_eq!(name("/music/tune.mid"), "tune");
    assert_eq!(name("tune.mid"), "tune");
    assert_eq!(name("a.tar.gz"), "a.tar");
    assert_eq!(name("/music/.hidden"), ".hidden");
    assert_eq!(name("noext"), "noext");
    assert_eq!(name(""), "");
}

use alarm_clock::alarm::alarm_check;
use alarm_clock::clock::ClockTime;
use alarm_clock::input::{Input, InputType};
use alarm_clock::message::{
    AlphanumMessage, ButtonEvent, EventMessage, PlayerMessage, SongEvent,
};
use alarm_clock::states::{
    State, StateAlarmSongSet, StateAlarmTimeSet, StateClock, StateClockSet, StateId,
    StateModeSelect, StatePlay,
};

#[test]
fn clock_confirm_opens_mode_select() {
    let mut s = StateClock::new();
    let fx = s.init();
    assert!(matches!(fx.display[0], AlphanumMessage::Time));
    let (next, _) = s.button_press(2);
    assert_eq!(next, Some(StateId::ModeSelect));
}

#[test]
fn clock_browse_buttons_silence_player() {
    let mut s = StateClock::new();
    let (next, fx) = s.button_press(0);
    assert_eq!(next, None);
    assert!(matches!(fx.player[0], PlayerMessage::Stop));
    let (next, fx) = s.button_press(1);
    assert_eq!(next, None);
    assert!(matches!(fx.player[0], PlayerMessage::Stop));
    let (next, fx) = s.button_press(7);
    assert_eq!(next, None);
    assert!(fx.player.is_empty() && fx.display.is_empty());
}

#[test]
fn mode_select_confirm_enters_selected_mode() {
    // Right after entry the first mode is highlighted.
    let mut s = StateModeSelect::new();
    let (next, _) = s.button_press(2);
    assert_eq!(next, Some(StateId::Clock));

    // Confirm always enters exactly the mode under the cursor.
    let order = [
        StateId::ClockSet,
        StateId::AlarmTime,
        StateId::AlarmSong,
        StateId::Play,
        StateId::Clock,
    ];
    let mut s = StateModeSelect::new();
    for expected in order {
        let (next, fx) = s.button_press(0);
        assert_eq!(next, None);
        match &fx.display[0] {
            AlphanumMessage::Loop(name) => assert_eq!(name, expected.as_str()),
            other => panic!("unexpected display command {:?}", other),
        }
        let (next, _) = s.button_press(2);
        assert_eq!(next, Some(expected));
    }
}

#[test]
fn mode_select_entry_shows_first_mode() {
    let s = StateModeSelect::new();
    let fx = s.init();
    match &fx.display[0] {
        AlphanumMessage::Loop(name) => assert_eq!(name, "Clock"),
        other => panic!("unexpected display command {:?}", other),
    }
}

#[test]
fn clock_set_scans_and_commits() {
    let mut s = StateClockSet::new();
    let fx = s.init();
    // The middle of the day is highlighted first.
    assert!(matches!(fx.display[0], AlphanumMessage::Static(cs) if cs == ['1', '2', '0', '0']));

    // One step up jumps widely: the accelerating scan.
    let (next, fx) = s.button_press(0);
    assert_eq!(next, None);
    assert!(matches!(fx.display[0], AlphanumMessage::Static(cs) if cs == ['1', '8', '0', '0']));

    // Confirm commits the candidate and returns to the clock.
    let (next, fx) = s.button_press(2);
    assert_eq!(next, Some(StateId::Clock));
    let committed = fx.set_time.expect("the candidate time is committed");
    assert_eq!(committed.hours(), 18);
    assert_eq!(committed.minutes(), 0);
    assert!(fx.set_alarm_time.is_none() && fx.set_alarm_song.is_none());
}

#[test]
fn alarm_time_set_commits_alarm() {
    let mut s = StateAlarmTimeSet::new();
    let (next, fx) = s.button_press(1);
    assert_eq!(next, None);
    assert!(matches!(fx.display[0], AlphanumMessage::Static(cs) if cs == ['0', '6', '0', '0']));
    let (next, fx) = s.button_press(2);
    assert_eq!(next, Some(StateId::Clock));
    let committed = fx.set_alarm_time.expect("the candidate time is armed");
    assert_eq!(committed.hours(), 6);
    assert_eq!(committed.minutes(), 0);
    assert!(fx.set_time.is_none());
}

#[test]
fn alarm_song_set_previews_and_commits() {
    let songs = vec!["a.mid".to_string(), "b.mid".to_string(), "c.mid".to_string()];
    let mut s = StateAlarmSongSet::new(songs);

    // Browsing asks for a preview of the newly selected song.
    let (next, fx) = s.button_press(0);
    assert_eq!(next, None);
    assert!(matches!(&fx.player[0], PlayerMessage::Play(p) if p == "b.mid"));

    // Confirm commits the song, silences the preview, returns to Clock.
    let (next, fx) = s.button_press(2);
    assert_eq!(next, Some(StateId::Clock));
    assert_eq!(fx.set_alarm_song.as_deref(), Some("b.mid"));
    assert!(matches!(fx.player[0], PlayerMessage::Stop));
}

#[test]
fn play_state_plays_and_stops() {
    let songs = vec!["a.mid".to_string(), "b.mid".to_string()];
    let mut s = StatePlay::new(songs);

    let (next, fx) = s.button_press(1);
    assert_eq!(next, None);
    assert!(matches!(&fx.player[0], PlayerMessage::Play(p) if p == "b.mid"));

    // Song notices drive the scrolling display.
    let (next, fx) = s.song_start("b".to_string());
    assert_eq!(next, None);
    assert!(matches!(&fx.display[0], AlphanumMessage::Loop(t) if t == "b"));
    let (next, fx) = s.song_end("b".to_string());
    assert_eq!(next, None);
    assert!(matches!(&fx.display[0], AlphanumMessage::Loop(t) if t == "Play"));

    let (next, fx) = s.button_press(2);
    assert_eq!(next, Some(StateId::Clock));
    assert!(matches!(fx.player[0], PlayerMessage::Stop));
    assert!(fx.set_alarm_song.is_none());
}

#[test]
fn events_dispatch_to_handlers() {
    let mut s = StateClock::new();
    let (next, _) = s.event(EventMessage::Button(ButtonEvent::Press(2)));
    assert_eq!(next, Some(StateId::ModeSelect));
    let (next, _) = s.event(EventMessage::Button(ButtonEvent::Release(2)));
    assert_eq!(next, None);
    let (next, _) = s.event(EventMessage::Song(SongEvent::Start("x".to_string())));
    assert_eq!(next, None);
    let (next, _) = s.event(EventMessage::Song(SongEvent::End("x".to_string())));
    assert_eq!(next, None);
}

#[test]
fn alarm_fires_once_per_crossing() {
    let alarm = Some(ClockTime::new(420));
    let song = Some("wake.mid".to_string());

    // The clock ticks onto the alarm minute and rests there.
    let samples = [419, 420, 420, 420, 420].map(ClockTime::new);
    let mut fired = 0;
    for pair in samples.windows(2) {
        if let Some(cmd) = alarm_check(pair[0], pair[1], alarm, &song) {
            assert!(matches!(&cmd, PlayerMessage::Loop(p) if p == "wake.mid"));
            fired += 1;
        }
    }
    assert_eq!(fired, 1);

    // No armed song: nothing fires.
    assert!(alarm_check(samples[0], samples[1], alarm, &None).is_none());
    // No armed time: nothing fires.
    assert!(alarm_check(samples[0], samples[1], None, &song).is_none());
    // Off the armed minute: nothing fires.
    let t = ClockTime::new(100);
    assert!(alarm_check(t, ClockTime::new(101), alarm, &song).is_none());
}

#[test]
fn debounce_drops_close_edges() {
    let mut input = Input::new(InputType::Button(1));
    assert!(input.observe(1_000_000));
    assert!(!input.observe(1_100_000));
    assert!(!input.observe(1_199_999));
    assert!(input.observe(1_200_000));
    assert!(!input.observe(1_300_000));
    assert!(input.observe(1_500_000));

    let press = input.edge_event(true);
    assert!(matches!(press, EventMessage::Button(ButtonEvent::Press(1))));
    let release = input.edge_event(false);
    assert!(matches!(release, EventMessage::Button(ButtonEvent::Release(1))));
}

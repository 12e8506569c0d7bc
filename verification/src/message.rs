use vstd::prelude::*;
use crate::display::BlinkRate;
use crate::note::MidiNote;

verus! {

/// An event delivered to the user-interface state machine.
#[derive(Debug)]
pub enum EventMessage {
    Button(ButtonEvent),
    Song(SongEvent),
}

/// A debounced edge on one of the physical buttons, by button id.
#[derive(Debug)]
pub enum ButtonEvent {
    Press(u8),
    Release(u8),
}

/// A playback lifecycle notice, carrying the song's display name.
#[derive(Debug)]
pub enum SongEvent {
    Start(String),
    End(String),
}

impl From<SongEvent> for EventMessage {
    fn from(from: SongEvent) -> (r: Self)
        ensures
            r == EventMessage::Song(from),
    {
        EventMessage::Song(from)
    }
}

impl vstd::std_specs::convert::FromSpecImpl<SongEvent> for EventMessage {
    open spec fn obeys_from_spec() -> bool {
        true
    }

    open spec fn from_spec(from: SongEvent) -> Self {
        EventMessage::Song(from)
    }
}

impl From<ButtonEvent> for EventMessage {
    fn from(from: ButtonEvent) -> (r: Self)
        ensures
            r == EventMessage::Button(from),
    {
        EventMessage::Button(from)
    }
}

impl vstd::std_specs::convert::FromSpecImpl<ButtonEvent> for EventMessage {
    open spec fn obeys_from_spec() -> bool {
        true
    }

    open spec fn from_spec(from: ButtonEvent) -> Self {
        EventMessage::Button(from)
    }
}

/// A command to the tone generator.
#[derive(Debug)]
pub enum BuzzerMessage {
    Clear,
    Note { on: bool, note: MidiNote },
}

/// A command to the playback engine. `Play` and `Loop` name the song file
/// by its path; a looped song is restarted by its sender when it ends.
#[derive(Debug)]
pub enum PlayerMessage {
    Play(String),
    Loop(String),
    Stop,
}

/// A command to the display driver.
#[derive(Debug)]
pub enum AlphanumMessage {
    /// Render these four characters until further notice.
    Static([char; 4]),
    /// Scroll this text around, four characters at a time.
    Loop(String),
    /// Render the live clock.
    Time,
    /// Render a blank display.
    Empty,
    /// Change the blink rate.
    Blink(BlinkRate),
}

} // verus!

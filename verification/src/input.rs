use vstd::prelude::*;
use crate::message::{ButtonEvent, EventMessage};

verus! {

/// What kind of input a hardware pin drives.
#[derive(Clone, Copy, Debug, PartialEq, Eq, Structural)]
pub enum InputType {
    /// A push button, by its button id.
    Button(u8),
}

/// The default bounce window: edges of one input closer together than
/// this many microseconds are electrical noise, not presses.
pub const DEFAULT_BOUNCE_US: u64 = 200_000;

/// Debounce state for one input: its kind, its bounce window, and when
/// it last produced an accepted edge.
pub struct Input {
    input_type: InputType,
    bounce_us: u64,
    last_event: Option<u64>,
}

impl Input {
    pub closed spec fn kind(&self) -> InputType {
        self.input_type
    }

    pub closed spec fn bounce(&self) -> int {
        self.bounce_us as int
    }

    pub closed spec fn last(&self) -> Option<u64> {
        self.last_event
    }

    /// A fresh input that has seen no edge yet, with the default bounce
    /// window of its kind.
    pub fn new(input_type: InputType) -> (r: Input)
        ensures
            r.kind() == input_type,
            r.bounce() == DEFAULT_BOUNCE_US,
            r.last() is None,
    {
        let bounce_us = match input_type {
            InputType::Button(_) => DEFAULT_BOUNCE_US,
        };
        Input { input_type, bounce_us, last_event: None }
    }

    /// Whether an edge at `now` counts: always for the first edge, and
    /// afterwards only once the bounce window has passed since the last
    /// accepted one.
    pub open spec fn accepts(&self, now: int) -> bool {
        match self.last() {
            None => true,
            Some(t) => now >= t + self.bounce(),
        }
    }

    /// Judges an edge at `now`: a real press or release is accepted and
    /// stamps the input; bounce noise is dropped and changes nothing.
    pub fn observe(&mut self, now: u64) -> (accept: bool)
        ensures
            accept == old(self).accepts(now as int),
            final(self).kind() == old(self).kind(),
            final(self).bounce() == old(self).bounce(),
            final(self).last() == (if accept {
                Some(now)
            } else {
                old(self).last()
            }),
    {
        let accept = match self.last_event {
            None => true,
            Some(t) => now >= t && now - t >= self.bounce_us,
        };
        if accept {
            self.last_event = Some(now);
        }
        accept
    }

    /// The event an accepted edge on this input stands for: a rising
    /// edge is a press, a falling edge a release.
    pub fn edge_event(&self, level_high: bool) -> (r: EventMessage)
        ensures
            (match self.kind() {
                InputType::Button(id) => r == (if level_high {
                    EventMessage::Button(ButtonEvent::Press(id))
                } else {
                    EventMessage::Button(ButtonEvent::Release(id))
                }),
            }),
    {
        match self.input_type {
            InputType::Button(id) => if level_high {
                EventMessage::Button(ButtonEvent::Press(id))
            } else {
                EventMessage::Button(ButtonEvent::Release(id))
            },
        }
    }
}

} // verus!

//! Core logic of a small alarm clock appliance: a time-of-day value,
//! wrap-around menu selectors, a note-to-frequency table, a Standard MIDI
//! File reader and playback scheduler, the button-driven UI state machine,
//! the display text modes, and the alarm trigger rule.
//!
//! Everything here is pure logic over plain values; the hardware and the
//! threads that feed events in and carry commands out live in the
//! surrounding application.

pub mod alarm;
pub mod clock;
pub mod config;
pub mod display;
pub mod input;
pub mod message;
pub mod midi;
pub mod note;
pub mod player;
pub mod selector;
pub mod states;
pub mod text;
pub mod tone;

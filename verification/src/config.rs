use vstd::prelude::*;

verus! {

/// The static configuration loaded once at startup: which pins drive
/// the buzzer and the buttons (the order of the button pins defines the
/// button ids), where the songs live, and how the display behaves.
pub struct Config {
    buzzer_pin: u8,
    button_pins: Vec<u8>,
    midi_dir: String,
    button_bounce_ms: u64,
    /// Display brightness, 0 to 15.
    pub brightness: u8,
    /// Milliseconds between scroll frames.
    pub scroll_delay_ms: u64,
    /// Whether the display folds letters to upper case.
    pub ascii_uppercase: bool,
    /// Where scrolling text starts within its ring.
    pub text_offset: i8,
}

impl Config {
    pub closed spec fn spec_buzzer_pin(&self) -> u8 {
        self.buzzer_pin
    }

    pub closed spec fn spec_button_pins(&self) -> Seq<u8> {
        self.button_pins@
    }

    pub closed spec fn spec_midi_dir(&self) -> Seq<char> {
        self.midi_dir@
    }

    pub closed spec fn spec_button_bounce_ms(&self) -> u64 {
        self.button_bounce_ms
    }

    pub closed spec fn spec_brightness(&self) -> u8 {
        self.brightness
    }

    pub closed spec fn spec_scroll_delay_ms(&self) -> u64 {
        self.scroll_delay_ms
    }

    pub closed spec fn spec_ascii_uppercase(&self) -> bool {
        self.ascii_uppercase
    }

    pub closed spec fn spec_text_offset(&self) -> i8 {
        self.text_offset
    }

    /// Assembles a configuration from its parsed fields.
    pub fn new(
        buzzer_pin: u8,
        button_pins: Vec<u8>,
        midi_dir: String,
        button_bounce_ms: u64,
        brightness: u8,
        scroll_delay_ms: u64,
        ascii_uppercase: bool,
        text_offset: i8,
    ) -> (r: Config)
        ensures
            r.spec_buzzer_pin() == buzzer_pin,
            r.spec_button_pins() == button_pins@,
            r.spec_midi_dir() == midi_dir@,
            r.spec_button_bounce_ms() == button_bounce_ms,
            r.spec_brightness() == brightness,
            r.spec_scroll_delay_ms() == scroll_delay_ms,
            r.spec_ascii_uppercase() == ascii_uppercase,
            r.spec_text_offset() == text_offset,
    {
        Config {
            buzzer_pin,
            button_pins,
            midi_dir,
            button_bounce_ms,
            brightness,
            scroll_delay_ms,
            ascii_uppercase,
            text_offset,
        }
    }

    pub fn buzzer_pin(&self) -> (r: u8)
        ensures
            r == self.spec_buzzer_pin(),
    {
        self.buzzer_pin
    }

    pub fn button_pins(&self) -> (r: &[u8])
        ensures
            r@ == self.spec_button_pins(),
    {
        self.button_pins.as_slice()
    }

    pub fn midi_dir(&self) -> (r: &str)
        ensures
            r@ == self.spec_midi_dir(),
    {
        self.midi_dir.as_str()
    }

    pub fn button_bounce_ms(&self) -> (r: u64)
        ensures
            r == self.spec_button_bounce_ms(),
    {
        self.button_bounce_ms
    }
}

} // verus!

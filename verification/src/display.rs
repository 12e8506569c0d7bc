use vstd::prelude::*;
use crate::clock::{clock_chars, ClockTime};
use crate::message::AlphanumMessage;
use crate::text::str_chars;

verus! {

/// How fast the display hardware blinks its content.
#[derive(Clone, Copy, Debug, PartialEq, Eq, Structural)]
pub enum BlinkRate {
    Off,
    HalfHz,
    OneHz,
    TwoHz,
}

/// The 14-segment mask that renders `c` on one digit of the display; an
/// unsupported character renders as the all-segments-on glyph.
pub open spec fn char_segments(c: char) -> u16 {
    if c == ' ' { 0b_0000_0000_0000_0000 }
    else if c == '!' { 0b_0000_0000_0000_0110 }
    else if c == '"' { 0b_0000_0010_0010_0000 }
    else if c == '#' { 0b_0001_0010_1100_1110 }
    else if c == '$' { 0b_0001_0010_1110_1101 }
    else if c == '%' { 0b_0000_1100_0010_0100 }
    else if c == '&' { 0b_0010_0011_0101_1101 }
    else if c == '\'' { 0b_0000_0100_0000_0000 }
    else if c == '(' { 0b_0010_0100_0000_0000 }
    else if c == ')' { 0b_0000_1001_0000_0000 }
    else if c == '*' { 0b_0011_1111_1100_0000 }
    else if c == '+' { 0b_0001_0010_1100_0000 }
    else if c == ',' { 0b_0000_1000_0000_0000 }
    else if c == '-' { 0b_0000_0000_1100_0000 }
    else if c == '.' { 0b_0000_0000_0000_0000 }
    else if c == '/' { 0b_0000_1100_0000_0000 }
    else if c == '0' { 0b_0000_1100_0011_1111 }
    else if c == '1' { 0b_0000_0000_0000_0110 }
    else if c == '2' { 0b_0000_0000_1101_1011 }
    else if c == '3' { 0b_0000_0000_1000_1111 }
    else if c == '4' { 0b_0000_0000_1110_0110 }
    else if c == '5' { 0b_0010_0000_0110_1001 }
    else if c == '6' { 0b_0000_0000_1111_1101 }
    else if c == '7' { 0b_0000_0000_0000_0111 }
    else if c == '8' { 0b_0000_0000_1111_1111 }
    else if c == '9' { 0b_0000_0000_1110_1111 }
    else if c == ':' { 0b_0001_0010_0000_0000 }
    else if c == ';' { 0b_0000_1010_0000_0000 }
    else if c == '<' { 0b_0010_0100_0000_0000 }
    else if c == '=' { 0b_0000_0000_1100_1000 }
    else if c == '>' { 0b_0000_1001_0000_0000 }
    else if c == '?' { 0b_0001_0000_1000_0011 }
    else if c == '@' { 0b_0000_0010_1011_1011 }
    else if c == 'A' { 0b_0000_0000_1111_0111 }
    else if c == 'B' { 0b_0001_0010_1000_1111 }
    else if c == 'C' { 0b_0000_0000_0011_1001 }
    else if c == 'D' { 0b_0001_0010_0000_1111 }
    else if c == 'E' { 0b_0000_0000_1111_1001 }
    else if c == 'F' { 0b_0000_0000_0111_0001 }
    else if c == 'G' { 0b_0000_0000_1011_1101 }
    else if c == 'H' { 0b_0000_0000_1111_0110 }
    else if c == 'I' { 0b_0001_0010_0000_0000 }
    else if c == 'J' { 0b_0000_0000_0001_1110 }
    else if c == 'K' { 0b_0010_0100_0111_0000 }
    else if c == 'L' { 0b_0000_0000_0011_1000 }
    else if c == 'M' { 0b_0000_0101_0011_0110 }
    else if c == 'N' { 0b_0010_0001_0011_0110 }
    else if c == 'O' { 0b_0000_0000_0011_1111 }
    else if c == 'P' { 0b_0000_0000_1111_0011 }
    else if c == 'Q' { 0b_0010_0000_0011_1111 }
    else if c == 'R' { 0b_0010_0000_1111_0011 }
    else if c == 'S' { 0b_0000_0000_1110_1101 }
    else if c == 'T' { 0b_0001_0010_0000_0001 }
    else if c == 'U' { 0b_0000_0000_0011_1110 }
    else if c == 'V' { 0b_0000_1100_0011_0000 }
    else if c == 'W' { 0b_0010_1000_0011_0110 }
    else if c == 'X' { 0b_0010_1101_0000_0000 }
    else if c == 'Y' { 0b_0001_0101_0000_0000 }
    else if c == 'Z' { 0b_0000_1100_0000_1001 }
    else if c == '[' { 0b_0000_0000_0011_1001 }
    else if c == '\\' { 0b_0010_0001_0000_0000 }
    else if c == ']' { 0b_0000_0000_0000_1111 }
    else if c == '^' { 0b_0000_1100_0000_0011 }
    else if c == '_' { 0b_0000_0000_0000_1000 }
    else if c == '`' { 0b_0000_0001_0000_0000 }
    else if c == 'a' { 0b_0001_0000_0101_1000 }
    else if c == 'b' { 0b_0010_0000_0111_1000 }
    else if c == 'c' { 0b_0000_0000_1101_1000 }
    else if c == 'd' { 0b_0000_1000_1000_1110 }
    else if c == 'e' { 0b_0000_1000_0101_1000 }
    else if c == 'f' { 0b_0000_0000_0111_0001 }
    else if c == 'g' { 0b_0000_0100_1000_1110 }
    else if c == 'h' { 0b_0001_0000_0111_0000 }
    else if c == 'i' { 0b_0001_0000_0000_0000 }
    else if c == 'j' { 0b_0000_0000_0000_1110 }
    else if c == 'k' { 0b_0011_0110_0000_0000 }
    else if c == 'l' { 0b_0000_0000_0011_0000 }
    else if c == 'm' { 0b_0001_0000_1101_0100 }
    else if c == 'n' { 0b_0001_0000_0101_0000 }
    else if c == 'o' { 0b_0000_0000_1101_1100 }
    else if c == 'p' { 0b_0000_0001_0111_0000 }
    else if c == 'q' { 0b_0000_0100_1000_0110 }
    else if c == 'r' { 0b_0000_0000_0101_0000 }
    else if c == 's' { 0b_0010_0000_1000_1000 }
    else if c == 't' { 0b_0000_0000_0111_1000 }
    else if c == 'u' { 0b_0000_0000_0001_1100 }
    else if c == 'v' { 0b_0010_0000_0000_0100 }
    else if c == 'w' { 0b_0010_1000_0001_0100 }
    else if c == 'x' { 0b_0010_1000_1100_0000 }
    else if c == 'y' { 0b_0010_0000_0000_1100 }
    else if c == 'z' { 0b_0000_1000_0100_1000 }
    else if c == '{' { 0b_0000_1001_0100_1001 }
    else if c == '|' { 0b_0001_0010_0000_0000 }
    else if c == '}' { 0b_0010_0100_1000_1001 }
    else if c == '~' { 0b_0000_0101_0010_0000 }
    else { 0b_0011_1111_1111_1111 }
}

/// Looks up the segment mask of one character.
pub fn char_to_alphanum(c: char) -> (r: u16)
    ensures
        r == char_segments(c),
{
    match c {
        ' ' => 0b_0000_0000_0000_0000,
        '!' => 0b_0000_0000_0000_0110,
        '"' => 0b_0000_0010_0010_0000,
        '#' => 0b_0001_0010_1100_1110,
        '$' => 0b_0001_0010_1110_1101,
        '%' => 0b_0000_1100_0010_0100,
        '&' => 0b_0010_0011_0101_1101,
        '\'' => 0b_0000_0100_0000_0000,
        '(' => 0b_0010_0100_0000_0000,
        ')' => 0b_0000_1001_0000_0000,
        '*' => 0b_0011_1111_1100_0000,
        '+' => 0b_0001_0010_1100_0000,
        ',' => 0b_0000_1000_0000_0000,
        '-' => 0b_0000_0000_1100_0000,
        '.' => 0b_0000_0000_0000_0000,
        '/' => 0b_0000_1100_0000_0000,
        '0' => 0b_0000_1100_0011_1111,
        '1' => 0b_0000_0000_0000_0110,
        '2' => 0b_0000_0000_1101_1011,
        '3' => 0b_0000_0000_1000_1111,
        '4' => 0b_0000_0000_1110_0110,
        '5' => 0b_0010_0000_0110_1001,
        '6' => 0b_0000_0000_1111_1101,
        '7' => 0b_0000_0000_0000_0111,
        '8' => 0b_0000_0000_1111_1111,
        '9' => 0b_0000_0000_1110_1111,
        ':' => 0b_0001_0010_0000_0000,
        ';' => 0b_0000_1010_0000_0000,
        '<' => 0b_0010_0100_0000_0000,
        '=' => 0b_0000_0000_1100_1000,
        '>' => 0b_0000_1001_0000_0000,
        '?' => 0b_0001_0000_1000_0011,
        '@' => 0b_0000_0010_1011_1011,
        'A' => 0b_0000_0000_1111_0111,
        'B' => 0b_0001_0010_1000_1111,
        'C' => 0b_0000_0000_0011_1001,
        'D' => 0b_0001_0010_0000_1111,
        'E' => 0b_0000_0000_1111_1001,
        'F' => 0b_0000_0000_0111_0001,
        'G' => 0b_0000_0000_1011_1101,
        'H' => 0b_0000_0000_1111_0110,
        'I' => 0b_0001_0010_0000_0000,
        'J' => 0b_0000_0000_0001_1110,
        'K' => 0b_0010_0100_0111_0000,
        'L' => 0b_0000_0000_0011_1000,
        'M' => 0b_0000_0101_0011_0110,
        'N' => 0b_0010_0001_0011_0110,
        'O' => 0b_0000_0000_0011_1111,
        'P' => 0b_0000_0000_1111_0011,
        'Q' => 0b_0010_0000_0011_1111,
        'R' => 0b_0010_0000_1111_0011,
        'S' => 0b_0000_0000_1110_1101,
        'T' => 0b_0001_0010_0000_0001,
        'U' => 0b_0000_0000_0011_1110,
        'V' => 0b_0000_1100_0011_0000,
        'W' => 0b_0010_1000_0011_0110,
        'X' => 0b_0010_1101_0000_0000,
        'Y' => 0b_0001_0101_0000_0000,
        'Z' => 0b_0000_1100_0000_1001,
        '[' => 0b_0000_0000_0011_1001,
        '\\' => 0b_0010_0001_0000_0000,
        ']' => 0b_0000_0000_0000_1111,
        '^' => 0b_0000_1100_0000_0011,
        '_' => 0b_0000_0000_0000_1000,
        '`' => 0b_0000_0001_0000_0000,
        'a' => 0b_0001_0000_0101_1000,
        'b' => 0b_0010_0000_0111_1000,
        'c' => 0b_0000_0000_1101_1000,
        'd' => 0b_0000_1000_1000_1110,
        'e' => 0b_0000_1000_0101_1000,
        'f' => 0b_0000_0000_0111_0001,
        'g' => 0b_0000_0100_1000_1110,
        'h' => 0b_0001_0000_0111_0000,
        'i' => 0b_0001_0000_0000_0000,
        'j' => 0b_0000_0000_0000_1110,
        'k' => 0b_0011_0110_0000_0000,
        'l' => 0b_0000_0000_0011_0000,
        'm' => 0b_0001_0000_1101_0100,
        'n' => 0b_0001_0000_0101_0000,
        'o' => 0b_0000_0000_1101_1100,
        'p' => 0b_0000_0001_0111_0000,
        'q' => 0b_0000_0100_1000_0110,
        'r' => 0b_0000_0000_0101_0000,
        's' => 0b_0010_0000_1000_1000,
        't' => 0b_0000_0000_0111_1000,
        'u' => 0b_0000_0000_0001_1100,
        'v' => 0b_0010_0000_0000_0100,
        'w' => 0b_0010_1000_0001_0100,
        'x' => 0b_0010_1000_1100_0000,
        'y' => 0b_0010_0000_0000_1100,
        'z' => 0b_0000_1000_0100_1000,
        '{' => 0b_0000_1001_0100_1001,
        '|' => 0b_0001_0010_0000_0000,
        '}' => 0b_0010_0100_1000_1001,
        '~' => 0b_0000_0101_0010_0000,
        _ => 0b_0011_1111_1111_1111,
    }
}

/// `c` with a lower-case ASCII letter folded to its upper-case form, as
/// the display option prefers; all other characters stay as they are.
pub open spec fn upper_char(c: char) -> char {
    if c == 'a' { 'A' }
    else if c == 'b' { 'B' }
    else if c == 'c' { 'C' }
    else if c == 'd' { 'D' }
    else if c == 'e' { 'E' }
    else if c == 'f' { 'F' }
    else if c == 'g' { 'G' }
    else if c == 'h' { 'H' }
    else if c == 'i' { 'I' }
    else if c == 'j' { 'J' }
    else if c == 'k' { 'K' }
    else if c == 'l' { 'L' }
    else if c == 'm' { 'M' }
    else if c == 'n' { 'N' }
    else if c == 'o' { 'O' }
    else if c == 'p' { 'P' }
    else if c == 'q' { 'Q' }
    else if c == 'r' { 'R' }
    else if c == 's' { 'S' }
    else if c == 't' { 'T' }
    else if c == 'u' { 'U' }
    else if c == 'v' { 'V' }
    else if c == 'w' { 'W' }
    else if c == 'x' { 'X' }
    else if c == 'y' { 'Y' }
    else if c == 'z' { 'Z' }
    else { c }
}

/// Folds one lower-case ASCII letter to upper case.
pub fn to_upper(c: char) -> (r: char)
    ensures
        r == upper_char(c),
{
    match c {
        'a' => 'A',
        'b' => 'B',
        'c' => 'C',
        'd' => 'D',
        'e' => 'E',
        'f' => 'F',
        'g' => 'G',
        'h' => 'H',
        'i' => 'I',
        'j' => 'J',
        'k' => 'K',
        'l' => 'L',
        'm' => 'M',
        'n' => 'N',
        'o' => 'O',
        'p' => 'P',
        'q' => 'Q',
        'r' => 'R',
        's' => 'S',
        't' => 'T',
        'u' => 'U',
        'v' => 'V',
        'w' => 'W',
        'x' => 'X',
        'y' => 'Y',
        'z' => 'Z',
        _ => c,
    }
}

/// The segment mask of `c` after the optional upper-case fold.
pub open spec fn glyph_of(c: char, uppercase: bool) -> int {
    char_segments(if uppercase { upper_char(c) } else { c }) as int
}

/// The nine bytes of a full display refresh: one zero register address,
/// then each character's segment mask, low byte first.
pub open spec fn frame_bytes(cs: Seq<char>, uppercase: bool) -> Seq<u8> {
    seq![
        0u8,
        (glyph_of(cs[0], uppercase) % 256) as u8,
        (glyph_of(cs[0], uppercase) / 256) as u8,
        (glyph_of(cs[1], uppercase) % 256) as u8,
        (glyph_of(cs[1], uppercase) / 256) as u8,
        (glyph_of(cs[2], uppercase) % 256) as u8,
        (glyph_of(cs[2], uppercase) / 256) as u8,
        (glyph_of(cs[3], uppercase) % 256) as u8,
        (glyph_of(cs[3], uppercase) / 256) as u8,
    ]
}

/// Builds the register image that shows the four characters.
pub fn display_bytes(chars: &[char; 4], uppercase: bool) -> (r: [u8; 9])
    ensures
        r@ == frame_bytes(chars@, uppercase),
{
    let c0 = if uppercase { to_upper(chars[0]) } else { chars[0] };
    let c1 = if uppercase { to_upper(chars[1]) } else { chars[1] };
    let c2 = if uppercase { to_upper(chars[2]) } else { chars[2] };
    let c3 = if uppercase { to_upper(chars[3]) } else { chars[3] };
    let s0 = char_to_alphanum(c0);
    let s1 = char_to_alphanum(c1);
    let s2 = char_to_alphanum(c2);
    let s3 = char_to_alphanum(c3);
    let r = [
        0u8,
        (s0 % 256) as u8,
        (s0 / 256) as u8,
        (s1 % 256) as u8,
        (s1 / 256) as u8,
        (s2 % 256) as u8,
        (s2 / 256) as u8,
        (s3 % 256) as u8,
        (s3 / 256) as u8,
    ];
    proof {
        assert(r@ =~= frame_bytes(chars@, uppercase));
    }
    r
}

/// The code the display hardware uses for each blink rate.
pub open spec fn blink_code(rate: BlinkRate) -> int {
    match rate {
        BlinkRate::Off => 0,
        BlinkRate::TwoHz => 1,
        BlinkRate::OneHz => 2,
        BlinkRate::HalfHz => 3,
    }
}

/// The blink-setup command byte: the command nibble, the display-on bit,
/// and the rate code shifted up by one.
pub fn blink_command(rate: BlinkRate) -> (r: u8)
    ensures
        r == 0x81 + 2 * blink_code(rate),
{
    let code: u8 = match rate {
        BlinkRate::Off => 0,
        BlinkRate::TwoHz => 1,
        BlinkRate::OneHz => 2,
        BlinkRate::HalfHz => 3,
    };
    0x81 + 2 * code
}

/// The brightness command byte: the command nibble plus the level, which
/// the hardware only accepts up to 15.
pub fn brightness_command(level: u8) -> (r: u8)
    ensures
        r == 0xE0 + (if level > 15 { 15int } else { level as int }),
{
    let capped = if level > 15 { 15 } else { level };
    0xE0 + capped
}

/// Where the cursor of a fresh scroll starts: the configured offset taken
/// modulo the text length, the length capped at the largest signed byte.
pub open spec fn scroll_start(len: int, start: i8) -> int {
    start as int % (if len > 127 { 127int } else { len })
}

/// The index `k` places after `i` on a ring of `len` slots.
pub open spec fn wrap_index(i: int, k: int, len: int) -> int {
    if i + k < len {
        i + k
    } else {
        i + k - len
    }
}

/// A piece of text scrolled across the 4-character display: a character
/// ring and a cursor, advanced one place per frame.
pub struct ScrollText {
    chars: Vec<char>,
    offset: usize,
}

impl ScrollText {
    /// The characters on the ring: the text followed by four blanks.
    pub closed spec fn text(&self) -> Seq<char> {
        self.chars@
    }

    /// The cursor: the ring index shown first in the current frame.
    pub closed spec fn offset(&self) -> int {
        self.offset as int
    }

    pub open spec fn wf(&self) -> bool {
        &&& 4 <= self.text().len()
        &&& self.text().len() + 4 <= usize::MAX
        &&& 0 <= self.offset() < self.text().len()
    }

    /// Starts a scroll of `text`, padded with four blanks so the end of
    /// the text clears the display before it comes around again.
    pub fn new(text: Vec<char>, start: i8) -> (r: ScrollText)
        requires
            text@.len() + 8 <= usize::MAX,
        ensures
            r.wf(),
            r.text() == text@ + seq![' ', ' ', ' ', ' '],
            r.offset() == scroll_start(text@.len() as int + 4, start),
    {
        let ghost orig = text@;
        let mut chars = text;
        chars.push(' ');
        chars.push(' ');
        chars.push(' ');
        chars.push(' ');
        proof {
            assert(chars@ =~= orig + seq![' ', ' ', ' ', ' ']);
        }
        let cap: i8 = if chars.len() > 127 { 127 } else { chars.len() as i8 };
        let offset = match start.checked_rem_euclid(cap) {
            Some(v) => v as usize,
            None => 0,
        };
        ScrollText { chars, offset }
    }

    /// The four characters of the current frame.
    pub open spec fn frame_chars(&self) -> Seq<char> {
        let len = self.text().len() as int;
        seq![
            self.text()[wrap_index(self.offset(), 0, len)],
            self.text()[wrap_index(self.offset(), 1, len)],
            self.text()[wrap_index(self.offset(), 2, len)],
            self.text()[wrap_index(self.offset(), 3, len)],
        ]
    }

    /// Reads the current frame.
    pub fn frame(&self) -> (r: [char; 4])
        requires
            self.wf(),
        ensures
            r@ == self.frame_chars(),
    {
        let len = self.chars.len();
        let i0 = self.offset;
        let i1 = if i0 + 1 < len { i0 + 1 } else { i0 + 1 - len };
        let i2 = if i0 + 2 < len { i0 + 2 } else { i0 + 2 - len };
        let i3 = if i0 + 3 < len { i0 + 3 } else { i0 + 3 - len };
        assert(i1 < len && i2 < len && i3 < len);
        let r = [self.chars[i0], self.chars[i1], self.chars[i2], self.chars[i3]];
        proof {
            assert(r@ =~= self.frame_chars());
        }
        r
    }

    /// Moves the cursor one place around the ring.
    pub fn advance(&mut self)
        requires
            old(self).wf(),
        ensures
            final(self).wf(),
            final(self).text() == old(self).text(),
            final(self).offset() == wrap_index(old(self).offset(), 1, old(self).text().len() as int),
    {
        self.offset = if self.offset + 1 < self.chars.len() {
            self.offset + 1
        } else {
            0
        };
    }
}

/// What the display is currently showing between commands.
pub enum TextMode {
    /// The live clock, re-rendered every frame.
    Time,
    /// A fixed four characters, rendered once when set.
    Static([char; 4]),
    /// Scrolling text, advanced one character per frame.
    Scroll(ScrollText),
}

impl TextMode {
    pub open spec fn wf(&self) -> bool {
        match self {
            TextMode::Scroll(st) => st.wf(),
            _ => true,
        }
    }
}

/// An immediate effect of a display command, beyond the mode change.
#[derive(Debug)]
pub enum DisplayAction {
    /// Render these characters now.
    Show([char; 4]),
    /// Reconfigure the blink rate now.
    SetBlink(BlinkRate),
}

/// Applies one command to the display state: the new mode, and what to do
/// right away. `scroll_offset` is the configured starting offset for
/// scrolling text.
pub fn apply_message(mode: TextMode, msg: AlphanumMessage, scroll_offset: i8) -> (r: (
    TextMode,
    Option<DisplayAction>,
))
    requires
        mode.wf(),
        msg matches AlphanumMessage::Loop(t) ==> t@.len() + 8 <= usize::MAX,
    ensures
        r.0.wf(),
        (match msg {
            AlphanumMessage::Static(cs) => r == (
                TextMode::Static(cs),
                Some(DisplayAction::Show(cs)),
            ),
            AlphanumMessage::Loop(t) => {
                &&& r.0 matches TextMode::Scroll(st)
                &&& st.text() == t@ + seq![' ', ' ', ' ', ' ']
                &&& st.offset() == scroll_start(t@.len() as int + 4, scroll_offset)
                &&& r.1 is None
            },
            AlphanumMessage::Time => r == (TextMode::Time, None::<DisplayAction>),
            AlphanumMessage::Empty => r == (
                TextMode::Static([' ', ' ', ' ', ' ']),
                Some(DisplayAction::Show([' ', ' ', ' ', ' '])),
            ),
            AlphanumMessage::Blink(b) => r == (mode, Some(DisplayAction::SetBlink(b))),
        }),
{
    match msg {
        AlphanumMessage::Static(cs) => (TextMode::Static(cs), Some(DisplayAction::Show(cs))),
        AlphanumMessage::Loop(t) => {
            let cs = str_chars(t.as_str());
            (TextMode::Scroll(ScrollText::new(cs, scroll_offset)), None)
        },
        AlphanumMessage::Time => (TextMode::Time, None),
        AlphanumMessage::Empty => {
            let blanks = [' ', ' ', ' ', ' '];
            (TextMode::Static(blanks), Some(DisplayAction::Show(blanks)))
        },
        AlphanumMessage::Blink(b) => (mode, Some(DisplayAction::SetBlink(b))),
    }
}

/// Produces the frame to render on a timer tick: the live clock, nothing
/// for a static display, or the next scroll frame (advancing the cursor).
pub fn render_frame(mode: &mut TextMode, now: ClockTime) -> (r: Option<[char; 4]>)
    requires
        old(mode).wf(),
        now.wf(),
    ensures
        final(mode).wf(),
        (match *old(mode) {
            TextMode::Time => {
                &&& *final(mode) == TextMode::Time
                &&& r matches Some(cs) && cs@ == clock_chars(now)
            },
            TextMode::Static(_) => *final(mode) == *old(mode) && r is None,
            TextMode::Scroll(st) => {
                &&& r matches Some(cs) && cs@ == st.frame_chars()
                &&& *final(mode) matches TextMode::Scroll(st2)
                &&& st2.text() == st.text()
                &&& st2.offset() == wrap_index(st.offset(), 1, st.text().len() as int)
            },
        }),
{
    match mode {
        TextMode::Time => Some(now.as_chars()),
        TextMode::Static(_) => None,
        TextMode::Scroll(st) => {
            let f = st.frame();
            st.advance();
            Some(f)
        },
    }
}

} // verus!

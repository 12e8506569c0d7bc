use vstd::prelude::*;

verus! {

/// Minutes in a day; times of day live in `0..MINUTES_PER_DAY`.
pub const MINUTES_PER_DAY: u16 = 1440;

/// A time of day, stored as minutes since midnight and reduced modulo a
/// day's length on construction.
#[derive(Clone, Copy, Debug, PartialEq, Eq, Structural)]
pub struct ClockTime {
    minutes: u16,
}

impl ClockTime {
    /// Minutes since midnight, as a mathematical integer.
    pub closed spec fn as_minutes(&self) -> int {
        self.minutes as int
    }

    /// A well-formed time of day is strictly below one day.
    pub open spec fn wf(&self) -> bool {
        0 <= self.as_minutes() < MINUTES_PER_DAY
    }

    pub fn new(minutes: u16) -> (r: Self)
        ensures
            r.wf(),
            r.as_minutes() == minutes as int % (MINUTES_PER_DAY as int),
    {
        Self { minutes: minutes % MINUTES_PER_DAY }
    }

    /// The time of day reached `total` minutes after midnight of day zero.
    pub fn from_elapsed_minutes(total: u64) -> (r: Self)
        ensures
            r.wf(),
            r.as_minutes() == total as int % (MINUTES_PER_DAY as int),
    {
        Self { minutes: (total % (MINUTES_PER_DAY as u64)) as u16 }
    }

    pub fn hours(&self) -> (r: u8)
        requires
            self.wf(),
        ensures
            r == self.as_minutes() / 60,
            r < 24,
    {
        (self.minutes / 60) as u8
    }

    pub fn minutes(&self) -> (r: u8)
        requires
            self.wf(),
        ensures
            r == self.as_minutes() % 60,
            r < 60,
    {
        (self.minutes % 60) as u8
    }

    /// The whole time as seconds, for conversion to a duration.
    pub fn total_seconds(&self) -> (r: u64)
        ensures
            r == self.as_minutes() * 60,
    {
        self.minutes as u64 * 60
    }

    /// The zero-padded "HHMM" rendering used by the 4-character display.
    pub fn as_chars(&self) -> (r: [char; 4])
        requires
            self.wf(),
        ensures
            r@ == clock_chars(*self),
    {
        let h = self.minutes / 60;
        let m = self.minutes % 60;
        let r = [
            digit_to_char(h / 10),
            digit_to_char(h % 10),
            digit_to_char(m / 10),
            digit_to_char(m % 10),
        ];
        proof {
            assert(r@ =~= clock_chars(*self));
        }
        r
    }
}

/// The four zero-padded "HHMM" digit characters of a time of day.
pub open spec fn clock_chars(t: ClockTime) -> Seq<char> {
    seq![
        digit_char(t.as_minutes() / 60 / 10),
        digit_char(t.as_minutes() / 60 % 10),
        digit_char(t.as_minutes() % 60 / 10),
        digit_char(t.as_minutes() % 60 % 10),
    ]
}

/// The decimal digit character for `d`, for `d` in `0..10`.
pub open spec fn digit_char(d: int) -> char {
    if d == 0 { '0' }
    else if d == 1 { '1' }
    else if d == 2 { '2' }
    else if d == 3 { '3' }
    else if d == 4 { '4' }
    else if d == 5 { '5' }
    else if d == 6 { '6' }
    else if d == 7 { '7' }
    else if d == 8 { '8' }
    else { '9' }
}

/// Renders one decimal digit.
pub fn digit_to_char(d: u16) -> (c: char)
    requires
        d < 10,
    ensures
        c == digit_char(d as int),
{
    match d {
        0 => '0',
        1 => '1',
        2 => '2',
        3 => '3',
        4 => '4',
        5 => '5',
        6 => '6',
        7 => '7',
        8 => '8',
        _ => '9',
    }
}

} // verus!

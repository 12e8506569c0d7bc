use vstd::prelude::*;
use vstd::arithmetic::div_mod::lemma_div_is_ordered;

verus! {

/// A note named by its MIDI key number. Key 21 is A0; each step is one
/// equal-tempered semitone, each twelve steps double the frequency. Keys
/// outside 0..=127 arise when a stored byte is read back as signed; the
/// frequency table below covers the whole signed byte range.
#[derive(Clone, Copy, Debug, PartialEq, Eq, Structural, Hash)]
pub struct MidiNote(pub i8);

/// `v` halved (with flooring) `k` times.
pub open spec fn halved(v: int, k: nat) -> int
    decreases k,
{
    if k == 0 {
        v
    } else {
        halved(v, (k - 1) as nat) / 2
    }
}

/// Milli-hertz of the semitone column `j` at the top octave of the
/// non-negative keys: the exact equal-tempered frequencies of keys
/// `120 + j`, rounded to the nearest milli-hertz. Key 129 would be A9 at
/// 14080 Hz exactly; every anchor is pinned by `a(j+1)/a(j) = 2^(1/12)`.
pub open spec fn anchor_high(j: int) -> int {
    if j == 0 { 8372018 }
    else if j == 1 { 8869844 }
    else if j == 2 { 9397273 }
    else if j == 3 { 9956063 }
    else if j == 4 { 10548082 }
    else if j == 5 { 11175303 }
    else if j == 6 { 11839822 }
    else if j == 7 { 12543854 }
    else if j == 8 { 13289750 }
    else if j == 9 { 14080000 }
    else if j == 10 { 14917240 }
    else { 15804266 }
}

/// Milli-hertz of the semitone column `j` at the top octave of the
/// negative keys: the exact frequencies of keys `-8 + j` (so `j = 8` is
/// key 0), rounded to the nearest milli-hertz.
pub open spec fn anchor_low(j: int) -> int {
    if j == 0 { 5150 }
    else if j == 1 { 5457 }
    else if j == 2 { 5781 }
    else if j == 3 { 6125 }
    else if j == 4 { 6489 }
    else if j == 5 { 6875 }
    else if j == 6 { 7284 }
    else if j == 7 { 7717 }
    else if j == 8 { 8176 }
    else if j == 9 { 8662 }
    else if j == 10 { 9177 }
    else { 9723 }
}

/// The frequency of a note in milli-hertz: `27.5 Hz * 2^((key - 21) / 12)`,
/// realised over the integers by anchoring each semitone column at its top
/// octave and halving once per octave below it.
pub open spec fn note_freq_millihz(key: i8) -> int {
    if key >= 0 {
        halved(anchor_high(key as int % 12), (10 - key as int / 12) as nat)
    } else {
        let m = key + 128;
        halved(anchor_low(m % 12), (10 - m / 12) as nat)
    }
}

fn anchor_high_at(j: usize) -> (r: u32)
    requires
        j < 12,
    ensures
        r == anchor_high(j as int),
        r >= 5150,
{
    match j {
        0 => 8372018,
        1 => 8869844,
        2 => 9397273,
        3 => 9956063,
        4 => 10548082,
        5 => 11175303,
        6 => 11839822,
        7 => 12543854,
        8 => 13289750,
        9 => 14080000,
        10 => 14917240,
        _ => 15804266,
    }
}

fn anchor_low_at(j: usize) -> (r: u32)
    requires
        j < 12,
    ensures
        r == anchor_low(j as int),
        r >= 5150,
{
    match j {
        0 => 5150,
        1 => 5457,
        2 => 5781,
        3 => 6125,
        4 => 6489,
        5 => 6875,
        6 => 7284,
        7 => 7717,
        8 => 8176,
        9 => 8662,
        10 => 9177,
        _ => 9723,
    }
}

proof fn lemma_halved_monotone(a: int, b: int, k: nat)
    requires
        0 <= a <= b,
    ensures
        halved(a, k) <= halved(b, k),
        halved(a, k) >= 0,
    decreases k,
{
    if k > 0 {
        lemma_halved_monotone(a, b, (k - 1) as nat);
        lemma_div_is_ordered(halved(a, (k - 1) as nat), halved(b, (k - 1) as nat), 2);
    }
}

proof fn lemma_halved_anti(a: int, j: nat, k: nat)
    requires
        0 <= a,
        j <= k,
    ensures
        halved(a, k) <= halved(a, j),
        halved(a, k) >= 0,
    decreases k,
{
    lemma_halved_monotone(a, a, k);
    if k > j {
        lemma_halved_anti(a, j, (k - 1) as nat);
        lemma_halved_monotone(a, a, (k - 1) as nat);
    }
}

/// Every key maps to a positive frequency, so dividing a time span by a
/// note's frequency is always meaningful.
pub proof fn lemma_note_freq_pos(key: i8)
    ensures
        note_freq_millihz(key) >= 5,
{
    assert(halved(5150, 10) == 5) by {
        reveal_with_fuel(halved, 11);
    }
    if key >= 0 {
        let j = key as int % 12;
        let k = (10 - key as int / 12) as nat;
        lemma_halved_anti(anchor_high(j), k, 10);
        lemma_halved_monotone(5150, anchor_high(j), 10);
    } else {
        let m = key + 128;
        let j = m % 12;
        let k = (10 - m / 12) as nat;
        lemma_halved_anti(anchor_low(j), k, 10);
        lemma_halved_monotone(5150, anchor_low(j), 10);
    }
}

impl MidiNote {
    /// The note's frequency in milli-hertz.
    pub fn frequency_millihz(&self) -> (r: u32)
        ensures
            r == note_freq_millihz(self.0),
            r >= 5,
    {
        let (anchor, shift): (u32, usize) = if self.0 >= 0 {
            let i = self.0 as usize;
            (anchor_high_at(i % 12), 10 - i / 12)
        } else {
            let m = (self.0 as i16 + 128) as usize;
            (anchor_low_at(m % 12), 10 - m / 12)
        };
        let mut f = anchor;
        let mut s = shift;
        while s > 0
            invariant
                s <= shift,
                shift <= 10,
                anchor >= 5150,
                f == halved(anchor as int, (shift - s) as nat),
            decreases s,
        {
            proof {
                assert(halved(anchor as int, (shift - s + 1) as nat)
                    == halved(anchor as int, (shift - s) as nat) / 2);
            }
            f = f / 2;
            s = s - 1;
        }
        proof {
            assert(halved(5150, 10) == 5) by {
                reveal_with_fuel(halved, 11);
            }
            lemma_halved_anti(anchor as int, shift as nat, 10);
            lemma_halved_monotone(5150, anchor as int, 10);
        }
        f
    }
}

} // verus!

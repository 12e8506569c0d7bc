use vstd::prelude::*;
use vstd::map::*;
use crate::note::{note_freq_millihz, MidiNote};

verus! {

/// No two entries of the list name the same note.
pub open spec fn unique_keys(s: Seq<(MidiNote, u64)>) -> bool {
    forall|i: int, j: int| 0 <= i < j < s.len() ==> (#[trigger] s[i]).0 != (#[trigger] s[j]).0
}

/// The association list as a map from note to stamp.
pub closed spec fn map_of(s: Seq<(MidiNote, u64)>) -> Map<MidiNote, u64>
    decreases s.len(),
{
    if s.len() == 0 {
        Map::empty()
    } else {
        map_of(s.drop_last()).insert(s.last().0, s.last().1)
    }
}

/// With unique keys, the map holds exactly the listed pairs.
proof fn lemma_map_of_props(s: Seq<(MidiNote, u64)>)
    ensures
        forall|i: int|
            0 <= i < s.len() && unique_keys(s) ==> map_of(s).contains_pair(
                (#[trigger] s[i]).0,
                s[i].1,
            ),
        forall|k: MidiNote|
            map_of(s).dom().contains(k) ==> exists|i: int| 0 <= i < s.len() && (#[trigger] s[i]).0
                == k,
    decreases s.len(),
{
    if s.len() > 0 {
        lemma_map_of_props(s.drop_last());
        assert forall|i: int|
            0 <= i < s.len() && unique_keys(s) implies map_of(s).contains_pair(
            (#[trigger] s[i]).0,
            s[i].1,
        ) by {
            if i < s.len() - 1 {
                assert(s.drop_last()[i] == s[i]);
                assert(unique_keys(s.drop_last()));
                assert(s[i].0 != s[s.len() - 1].0);
            }
        }
        assert forall|k: MidiNote| map_of(s).dom().contains(k) implies exists|i: int|
            0 <= i < s.len() && (#[trigger] s[i]).0 == k by {
            if k != s.last().0 {
                assert(map_of(s.drop_last()).dom().contains(k));
                let i = choose|i: int|
                    0 <= i < s.drop_last().len() && (#[trigger] s.drop_last()[i]).0 == k;
                assert(s[i].0 == k);
            } else {
                assert(s[s.len() - 1].0 == k);
            }
        }
    }
}

/// The half-period of a note in microseconds: how long the output pin
/// rests between pulses of this note.
pub open spec fn period_of(n: MidiNote) -> int {
    1_000_000_000int / note_freq_millihz(n.0)
}

/// Whether a note stamped `v` is due another pulse at time `now`.
pub open spec fn fired(v: u64, n: MidiNote, now: u64) -> bool {
    v + period_of(n) < now
}

/// The stamp of a note after one update pass: advanced by one period if
/// it fired, untouched otherwise.
pub open spec fn stepped_stamp(v: u64, n: MidiNote, now: u64) -> u64 {
    if fired(v, n, now) {
        (v + period_of(n)) as u64
    } else {
        v
    }
}

/// The whole active set after one update pass.
pub open spec fn ticked(m: Map<MidiNote, u64>, now: u64) -> Map<MidiNote, u64> {
    Map::new(|n: MidiNote| m.dom().contains(n), |n: MidiNote| stepped_stamp(m[n], n, now))
}

/// The tone generator's bookkeeping: which notes sound, and when each
/// was last pulsed. The single output pin itself stays with the caller;
/// `update` only decides whether to pulse it. A chord shares the one
/// pin, so only the toggle timing approximates each pitch: audible
/// artifacts on chords are a known limit of the device, not a defect
/// of this bookkeeping.
pub struct Buzzer {
    notes: Vec<(MidiNote, u64)>,
}

impl Buzzer {
    /// The active notes, each with the time of its last pulse.
    pub closed spec fn active(&self) -> Map<MidiNote, u64> {
        map_of(self.notes@)
    }

    pub closed spec fn wf(&self) -> bool {
        unique_keys(self.notes@)
    }

    pub fn new() -> (r: Buzzer)
        ensures
            r.wf(),
            r.active() == Map::<MidiNote, u64>::empty(),
    {
        Buzzer { notes: Vec::new() }
    }

    /// Marks a note active, stamped as pulsed at `now`.
    pub fn add_note(&mut self, note: MidiNote, now: u64)
        requires
            old(self).wf(),
        ensures
            final(self).wf(),
            final(self).active() == old(self).active().insert(note, now),
    {
        proof {
            lemma_map_of_props(self.notes@);
        }
        let n = self.notes.len();
        let mut i: usize = 0;
        while i < n
            invariant
                i <= n,
                n == self.notes@.len(),
                unique_keys(self.notes@),
                self.notes@ == old(self).notes@,
                forall|j: int| 0 <= j < i ==> (#[trigger] self.notes@[j]).0 != note,
            decreases n - i,
        {
            if self.notes[i].0 == note {
                let ghost s0 = self.notes@;
                self.notes.set(i, (note, now));
                proof {
                    lemma_map_of_props(self.notes@);
                    lemma_map_of_props(s0);
                    assert(unique_keys(self.notes@));
                    let s1 = self.notes@;
                    let m1 = map_of(s1);
                    let m2 = map_of(s0).insert(note, now);
                    assert_maps_equal!(m1, m2, k => {
                        if m1.dom().contains(k) {
                            let a = choose|a: int| 0 <= a < s1.len()
                                && (#[trigger] s1[a]).0 == k;
                            assert(m1.contains_pair(s1[a].0, s1[a].1));
                            if a != i {
                                assert(s0[a] == s1[a]);
                                assert(map_of(s0).contains_pair(s0[a].0, s0[a].1));
                            }
                        }
                        if m2.dom().contains(k) {
                            if k != note {
                                let a = choose|a: int| 0 <= a < s0.len()
                                    && (#[trigger] s0[a]).0 == k;
                                assert(map_of(s0).contains_pair(s0[a].0, s0[a].1));
                                assert(s1[a] == s0[a]);
                                assert(m1.contains_pair(s1[a].0, s1[a].1));
                            } else {
                                assert(m1.contains_pair(s1[i as int].0, s1[i as int].1));
                            }
                        }
                    });
                }
                return ;
            }
            i = i + 1;
        }
        let ghost s0 = self.notes@;
        self.notes.push((note, now));
        proof {
            assert(self.notes@.drop_last() =~= s0);
            assert(unique_keys(self.notes@));
        }
    }

    /// Deactivates a note; one that is not active stays absent.
    pub fn remove_note(&mut self, note: &MidiNote)
        requires
            old(self).wf(),
        ensures
            final(self).wf(),
            final(self).active() == old(self).active().remove(*note),
    {
        proof {
            lemma_map_of_props(self.notes@);
        }
        let n = self.notes.len();
        let mut i: usize = 0;
        while i < n
            invariant
                i <= n,
                n == self.notes@.len(),
                unique_keys(self.notes@),
                self.notes@ == old(self).notes@,
                forall|j: int| 0 <= j < i ==> (#[trigger] self.notes@[j]).0 != *note,
            decreases n - i,
        {
            if self.notes[i].0 == *note {
                let ghost s0 = self.notes@;
                self.notes.remove(i);
                proof {
                    assert forall|a: int, b: int|
                        0 <= a < b < self.notes@.len() implies (#[trigger] self.notes@[a]).0 != (
                    #[trigger] self.notes@[b]).0 by {
                        let a0 = if a < i { a } else { a + 1 };
                        let b0 = if b < i { b } else { b + 1 };
                        assert(self.notes@[a] == s0[a0] && self.notes@[b] == s0[b0]);
                    }
                    lemma_map_of_props(self.notes@);
                    lemma_map_of_props(s0);
                    let s1 = self.notes@;
                    let m1 = map_of(s1);
                    let m2 = map_of(s0).remove(*note);
                    assert_maps_equal!(m1, m2, k => {
                        if m1.dom().contains(k) {
                            let a = choose|a: int| 0 <= a < s1.len()
                                && (#[trigger] s1[a]).0 == k;
                            let a0 = if a < i { a } else { a + 1 };
                            assert(s1[a] == s0[a0]);
                        }
                        if m2.dom().contains(k) {
                            let a0 = choose|a0: int| 0 <= a0 < s0.len()
                                && (#[trigger] s0[a0]).0 == k;
                            let a = if a0 < i { a0 } else { a0 - 1 };
                            assert(s1[a] == s0[a0]);
                        }
                    });
                }
                return ;
            }
            i = i + 1;
        }
        proof {
            let m1 = map_of(self.notes@);
            let m2 = map_of(old(self).notes@).remove(*note);
            assert_maps_equal!(m1, m2, k => {});
        }
    }

    /// Silences everything.
    pub fn clear(&mut self)
        ensures
            final(self).wf(),
            final(self).active() == Map::<MidiNote, u64>::empty(),
    {
        self.notes = Vec::new();
    }

    /// One pass of the tone loop at time `now`: every active note whose
    /// half-period has elapsed since its last pulse advances by exactly
    /// one period, and the result says whether the caller should pulse
    /// the pin this pass.
    pub fn update(&mut self, now: u64) -> (play: bool)
        requires
            old(self).wf(),
        ensures
            final(self).wf(),
            final(self).active() == ticked(old(self).active(), now),
            play == exists|n: MidiNote|
                old(self).active().dom().contains(n) && fired(old(self).active()[n], n, now),
    {
        proof {
            lemma_map_of_props(self.notes@);
        }
        let ghost s0 = self.notes@;
        let ghost m0 = map_of(s0);
        let n = self.notes.len();
        let mut play = false;
        let mut i: usize = 0;
        while i < n
            invariant
                i <= n,
                n == self.notes@.len(),
                s0.len() == n,
                unique_keys(s0),
                m0 == map_of(s0),
                forall|j: int| 0 <= j < n ==> (#[trigger] self.notes@[j]).0 == s0[j].0,
                forall|j: int|
                    i <= j < n ==> (#[trigger] self.notes@[j]) == s0[j],
                forall|j: int|
                    0 <= j < i ==> (#[trigger] self.notes@[j]).1 == stepped_stamp(
                        s0[j].1,
                        s0[j].0,
                        now,
                    ),
                play == exists|j: int| 0 <= j < i && fired((#[trigger] s0[j]).1, s0[j].0, now),
            decreases n - i,
        {
            let (note, since) = self.notes[i];
            let freq = note.frequency_millihz();
            let period = 1_000_000_000u64 / (freq as u64);
            match since.checked_add(period) {
                Some(t) => {
                    if t < now {
                        self.notes.set(i, (note, t));
                        play = true;
                        proof {
                            assert(fired(s0[i as int].1, s0[i as int].0, now));
                        }
                    }
                },
                None => {
                    proof {
                        assert(!fired(s0[i as int].1, s0[i as int].0, now));
                    }
                },
            }
            i = i + 1;
        }
        proof {
            assert(unique_keys(self.notes@));
            lemma_map_of_props(self.notes@);
            let s1 = self.notes@;
            let m1 = map_of(s1);
            let m2 = ticked(m0, now);
            assert_maps_equal!(m1, m2, k => {
                if m1.dom().contains(k) {
                    let a = choose|a: int| 0 <= a < s1.len()
                        && (#[trigger] s1[a]).0 == k;
                    assert(s0[a].0 == k);
                    assert(m0.contains_pair(s0[a].0, s0[a].1));
                }
                if m2.dom().contains(k) {
                    let a = choose|a: int| 0 <= a < s0.len() && (#[trigger] s0[a]).0 == k;
                    assert(m0.contains_pair(s0[a].0, s0[a].1));
                    assert(m1.contains_pair(s1[a].0, s1[a].1));
                }
            });
            if play {
                let j = choose|j: int| 0 <= j < n && fired((#[trigger] s0[j]).1, s0[j].0, now);
                assert(m0.contains_pair(s0[j].0, s0[j].1));
            }
            if exists|k: MidiNote| m0.dom().contains(k) && fired(m0[k], k, now) {
                let k = choose|k: MidiNote| m0.dom().contains(k) && fired(m0[k], k, now);
                let a = choose|a: int| 0 <= a < s0.len() && (#[trigger] s0[a]).0 == k;
                assert(m0.contains_pair(s0[a].0, s0[a].1));
                assert(fired(s0[a].1, s0[a].0, now));
            }
        }
        play
    }
}

} // verus!

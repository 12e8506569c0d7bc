use vstd::prelude::*;
use crate::clock::ClockTime;
use crate::message::PlayerMessage;

verus! {

/// Whether a pair of consecutive clock samples crosses onto the armed
/// time: the earlier one reads differently, the later one reads exactly
/// the armed time.
pub open spec fn alarm_crossing(before: ClockTime, after: ClockTime, alarm: Option<ClockTime>) -> bool {
    alarm matches Some(t) && before != t && after == t
}

/// One poll of the alarm watcher: given the previous and current clock
/// sample, the armed time and the armed song, asks for a looped replay
/// of the song exactly when the clock crosses onto the armed time. The
/// watcher is edge-triggered: while the clock rests on the armed time,
/// `before == after` and nothing fires.
pub fn alarm_check(
    before: ClockTime,
    after: ClockTime,
    alarm: Option<ClockTime>,
    song: &Option<String>,
) -> (r: Option<PlayerMessage>)
    ensures
        (match song {
            Some(sp) => if alarm_crossing(before, after, alarm) {
                r matches Some(m) && m matches PlayerMessage::Loop(p) && p@ == sp@
            } else {
                r is None
            },
            None => r is None,
        }),
{
    let fire = match alarm {
        Some(t) => before != t && after == t,
        None => false,
    };
    if fire {
        match song {
            Some(p) => Some(PlayerMessage::Loop(p.clone())),
            None => None,
        }
    } else {
        None
    }
}

/// How many times a watcher fires over a run of clock samples: once per
/// consecutive pair that crosses onto the armed time.
pub open spec fn count_fires(samples: Seq<ClockTime>, alarm: ClockTime) -> int
    decreases samples.len(),
{
    if samples.len() < 2 {
        0
    } else {
        count_fires(samples.drop_last(), alarm) + if alarm_crossing(
            samples[samples.len() - 2],
            samples.last(),
            Some(alarm),
        ) {
            1int
        } else {
            0int
        }
    }
}

/// Alarm law: over a run of samples that starts off the armed time and
/// then rests on it — the clock ticking over to the alarm minute and
/// staying there — the watcher fires exactly once, not once per poll.
pub proof fn lemma_alarm_fires_once(samples: Seq<ClockTime>, alarm: ClockTime)
    requires
        samples.len() >= 2,
        samples[0] != alarm,
        forall|i: int| 1 <= i < samples.len() ==> samples[i] == alarm,
    ensures
        count_fires(samples, alarm) == 1,
    decreases samples.len(),
{
    if samples.len() > 2 {
        assert(samples.drop_last()[0] == samples[0]);
        assert forall|i: int| 1 <= i < samples.drop_last().len() implies samples.drop_last()[i]
            == alarm by {
            assert(samples.drop_last()[i] == samples[i]);
        }
        lemma_alarm_fires_once(samples.drop_last(), alarm);
        assert(samples[samples.len() - 2] == alarm);
        assert(samples.last() == alarm);
        assert(!alarm_crossing(samples[samples.len() - 2], samples.last(), Some(alarm)));
    } else {
        reveal_with_fuel(count_fires, 3);
        assert(samples.last() == samples[1]);
        assert(alarm_crossing(samples[0], samples[1], Some(alarm)));
        assert(samples.drop_last().len() == 1);
    }
}

} // verus!

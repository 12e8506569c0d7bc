use vstd::prelude::*;
use vstd::arithmetic::div_mod::lemma_div_pos_is_pos;
use vstd::arithmetic::mul::{lemma_mul_nonnegative, lemma_mul_upper_bound};
use crate::message::{BuzzerMessage, PlayerMessage};
use crate::midi::{MidiFile, TrackEvent, TrackEventKind};
use crate::note::MidiNote;

verus! {

/// The microseconds spanned by `delta` ticks at `tempo` microseconds per
/// beat and `ticks_per_beat` ticks per beat.
pub open spec fn delta_micros(ticks_per_beat: int, tempo: int, delta: int) -> int {
    tempo * delta / ticks_per_beat
}

/// Converts a tick delay to microseconds.
pub fn delta_to_micros(ticks_per_beat: u16, tempo: u32, delta: u32) -> (r: u64)
    requires
        ticks_per_beat > 0,
    ensures
        r == delta_micros(ticks_per_beat as int, tempo as int, delta as int),
{
    proof {
        lemma_mul_upper_bound(tempo as int, 0xFFFF_FFFF, delta as int, 0xFFFF_FFFF);
    }
    (tempo as u64) * (delta as u64) / (ticks_per_beat as u64)
}

/// `a + b` capped at the largest 64-bit value, so a schedule far in the
/// future saturates instead of failing.
pub open spec fn sat_add_u64(a: int, b: int) -> int {
    if a + b > u64::MAX {
        u64::MAX as int
    } else {
        a + b
    }
}

fn sat_add(a: u64, b: u64) -> (r: u64)
    ensures
        r == sat_add_u64(a as int, b as int),
{
    match a.checked_add(b) {
        Some(v) => v,
        None => u64::MAX,
    }
}

/// The tone command an event asks for: key changes turn a note on or
/// off — a note-on only when its velocity is positive — and everything
/// else plays nothing.
pub open spec fn note_cmd(kind: TrackEventKind) -> Option<BuzzerMessage> {
    match kind {
        TrackEventKind::NoteOff { key, vel } => Some(
            BuzzerMessage::Note { on: false, note: MidiNote(key as i8) },
        ),
        TrackEventKind::NoteOn { key, vel } => Some(
            BuzzerMessage::Note { on: vel > 0, note: MidiNote(key as i8) },
        ),
        TrackEventKind::Aftertouch { key, vel } => Some(
            BuzzerMessage::Note { on: vel > 0, note: MidiNote(key as i8) },
        ),
        TrackEventKind::Tempo(_) => None,
        TrackEventKind::Other => None,
    }
}

/// Maps one event to the note change it plays, if any.
pub fn midi_to_buzzer(kind: TrackEventKind) -> (r: Option<(bool, MidiNote)>)
    ensures
        (match r {
            Some((on, note)) => note_cmd(kind) == Some(BuzzerMessage::Note { on, note }),
            None => note_cmd(kind) is None,
        }),
{
    match kind {
        TrackEventKind::NoteOff { key, .. } => Some(
            (false, MidiNote(#[verifier::truncate] (key as i8))),
        ),
        TrackEventKind::NoteOn { key, vel } => Some(
            (vel > 0, MidiNote(#[verifier::truncate] (key as i8))),
        ),
        TrackEventKind::Aftertouch { key, vel } => Some(
            (vel > 0, MidiNote(#[verifier::truncate] (key as i8))),
        ),
        TrackEventKind::Tempo(_) => None,
        TrackEventKind::Other => None,
    }
}

/// One track's share of a scheduler poll at time `now`, starting at event
/// `pos` with the track's next event due at `fire`: events are consumed
/// while due, each note command is collected with its due time, a tempo
/// event replaces the tempo, and each consumed event schedules the next
/// one `delta_micros` later. The result is the new position, due time and
/// tempo, and the commands in order.
pub open spec fn track_run(
    track: Seq<TrackEvent>,
    pos: int,
    fire: int,
    tempo: int,
    tpb: int,
    now: int,
) -> (int, int, int, Seq<(int, BuzzerMessage)>)
    decreases track.len() - pos,
{
    if pos < 0 || pos >= track.len() || fire > now {
        (pos, fire, tempo, Seq::empty())
    } else {
        let ev = track[pos];
        let tempo2 = match ev.kind {
            TrackEventKind::Tempo(t) => t as int,
            _ => tempo,
        };
        let emitted: Seq<(int, BuzzerMessage)> = match note_cmd(ev.kind) {
            Some(m) => seq![(fire, m)],
            None => Seq::empty(),
        };
        let fire2 = if pos + 1 < track.len() {
            sat_add_u64(fire, delta_micros(tpb, tempo2, track[pos + 1].delta as int))
        } else {
            fire
        };
        let rec = track_run(track, pos + 1, fire2, tempo2, tpb, now);
        (rec.0, rec.1, rec.2, emitted + rec.3)
    }
}

/// One full scheduler poll at time `now`, over the tracks from index `i`
/// on, threading the tempo from track to track as the single scheduler
/// loop does.
pub open spec fn sched_tick(
    tracks: Seq<Seq<TrackEvent>>,
    poss: Seq<int>,
    fires: Seq<int>,
    tempo: int,
    tpb: int,
    now: int,
    i: int,
) -> (Seq<int>, Seq<int>, int, Seq<(int, BuzzerMessage)>)
    decreases tracks.len() - i,
{
    if i < 0 || i >= tracks.len() {
        (poss, fires, tempo, Seq::empty())
    } else {
        let r = track_run(tracks[i], poss[i], fires[i], tempo, tpb, now);
        let rec = sched_tick(tracks, poss.update(i, r.0), fires.update(i, r.1), r.2, tpb, now, i + 1);
        (rec.0, rec.1, rec.2, r.3 + rec.3)
    }
}

/// The note commands of a poll, with the due times dropped.
pub open spec fn cmds_of(emitted: Seq<(int, BuzzerMessage)>) -> Seq<BuzzerMessage> {
    emitted.map_values(|p: (int, BuzzerMessage)| p.1)
}


/// `delta_micros` of well-formed inputs is never negative.
proof fn lemma_delta_micros_nonneg(tpb: int, tempo: int, delta: int)
    requires
        0 < tpb,
        0 <= tempo,
        0 <= delta,
    ensures
        0 <= delta_micros(tpb, tempo, delta),
{
    lemma_mul_nonnegative(tempo, delta);
    lemma_div_pos_is_pos(tempo * delta, tpb);
}

/// Every command of one track's poll is due: at or before `now` and not
/// before the track's pending due time; and afterwards the track is
/// either exhausted or scheduled past `now`, never earlier than before.
pub proof fn lemma_track_run_times(
    track: Seq<TrackEvent>,
    pos: int,
    fire: int,
    tempo: int,
    tpb: int,
    now: int,
)
    requires
        0 < tpb,
        0 <= tempo,
        0 <= pos,
        0 <= fire <= u64::MAX,
    ensures
        ({
            let r = track_run(track, pos, fire, tempo, tpb, now);
            &&& forall|k: int| 0 <= k < r.3.len() ==> fire <= (#[trigger] r.3[k]).0 <= now
            &&& r.0 >= track.len() || r.1 > now
            &&& pos <= r.0
            &&& fire <= r.1 <= u64::MAX
            &&& 0 <= r.2
        }),
    decreases track.len() - pos,
{
    if !(pos < 0 || pos >= track.len() || fire > now) {
        let ev = track[pos];
        let tempo2 = match ev.kind {
            TrackEventKind::Tempo(t) => t as int,
            _ => tempo,
        };
        let fire2 = if pos + 1 < track.len() {
            sat_add_u64(fire, delta_micros(tpb, tempo2, track[pos + 1].delta as int))
        } else {
            fire
        };
        if pos + 1 < track.len() {
            lemma_delta_micros_nonneg(tpb, tempo2, track[pos + 1].delta as int);
        }
        lemma_track_run_times(track, pos + 1, fire2, tempo2, tpb, now);
    }
}

/// Every command of a full poll is due at or before `now`; afterwards
/// every track is exhausted or scheduled past `now`; and the state stays
/// well formed for the next poll.
pub proof fn lemma_tick_times(
    tracks: Seq<Seq<TrackEvent>>,
    poss: Seq<int>,
    fires: Seq<int>,
    tempo: int,
    tpb: int,
    now: int,
    i: int,
)
    requires
        0 < tpb,
        0 <= tempo,
        0 <= i,
        poss.len() == tracks.len(),
        fires.len() == tracks.len(),
        forall|j: int| 0 <= j < tracks.len() ==> 0 <= #[trigger] poss[j],
        forall|j: int| 0 <= j < tracks.len() ==> 0 <= #[trigger] fires[j] <= u64::MAX,
    ensures
        ({
            let r = sched_tick(tracks, poss, fires, tempo, tpb, now, i);
            &&& forall|k: int| 0 <= k < r.3.len() ==> (#[trigger] r.3[k]).0 <= now
            &&& forall|j: int|
                i <= j < tracks.len() ==> ((#[trigger] r.0[j]) >= tracks[j].len() || r.1[j] > now)
            &&& forall|j: int| 0 <= j < i && j < tracks.len() ==> (#[trigger] r.0[j]) == poss[j]
            &&& forall|j: int| 0 <= j < i && j < tracks.len() ==> (#[trigger] r.1[j]) == fires[j]
            &&& r.0.len() == tracks.len()
            &&& r.1.len() == tracks.len()
            &&& 0 <= r.2
            &&& forall|j: int| 0 <= j < tracks.len() ==> 0 <= #[trigger] r.0[j]
            &&& forall|j: int| 0 <= j < tracks.len() ==> 0 <= #[trigger] r.1[j] <= u64::MAX
        }),
    decreases tracks.len() - i,
{
    if 0 <= i < tracks.len() {
        let tr = track_run(tracks[i], poss[i], fires[i], tempo, tpb, now);
        lemma_track_run_times(tracks[i], poss[i], fires[i], tempo, tpb, now);
        lemma_tick_times(
            tracks,
            poss.update(i, tr.0),
            fires.update(i, tr.1),
            tr.2,
            tpb,
            now,
            i + 1,
        );
    }
}

/// If every track still pending is scheduled after `bound`, then every
/// command of a poll is due after `bound`.
pub proof fn lemma_tick_emits_after(
    tracks: Seq<Seq<TrackEvent>>,
    poss: Seq<int>,
    fires: Seq<int>,
    tempo: int,
    tpb: int,
    now: int,
    i: int,
    bound: int,
)
    requires
        0 < tpb,
        0 <= tempo,
        0 <= i,
        poss.len() == tracks.len(),
        fires.len() == tracks.len(),
        forall|j: int| 0 <= j < tracks.len() ==> 0 <= #[trigger] poss[j],
        forall|j: int| 0 <= j < tracks.len() ==> 0 <= #[trigger] fires[j] <= u64::MAX,
        forall|j: int|
            i <= j < tracks.len() ==> ((#[trigger] poss[j]) >= tracks[j].len() || fires[j] > bound),
    ensures
        ({
            let r = sched_tick(tracks, poss, fires, tempo, tpb, now, i);
            forall|k: int| 0 <= k < r.3.len() ==> (#[trigger] r.3[k]).0 > bound
        }),
    decreases tracks.len() - i,
{
    if 0 <= i < tracks.len() {
        let tr = track_run(tracks[i], poss[i], fires[i], tempo, tpb, now);
        lemma_track_run_times(tracks[i], poss[i], fires[i], tempo, tpb, now);
        let rec = sched_tick(
            tracks,
            poss.update(i, tr.0),
            fires.update(i, tr.1),
            tr.2,
            tpb,
            now,
            i + 1,
        );
        lemma_tick_emits_after(
            tracks,
            poss.update(i, tr.0),
            fires.update(i, tr.1),
            tr.2,
            tpb,
            now,
            i + 1,
            bound,
        );
        let r = sched_tick(tracks, poss, fires, tempo, tpb, now, i);
        assert forall|k: int| 0 <= k < r.3.len() implies (#[trigger] r.3[k]).0 > bound by {
            if k < tr.3.len() {
                assert(r.3[k] == tr.3[k]);
            } else {
                assert(r.3[k] == rec.3[k - tr.3.len()]);
            }
        }
    }
}

/// Scheduler ordering law: over two polls at non-decreasing times, every
/// command of the earlier poll is due no later than any command of the
/// later poll — across all tracks, notes reach the tone generator in
/// non-decreasing time order.
pub proof fn lemma_tick_order(
    tracks: Seq<Seq<TrackEvent>>,
    poss: Seq<int>,
    fires: Seq<int>,
    tempo: int,
    tpb: int,
    now1: int,
    now2: int,
)
    requires
        0 < tpb,
        0 <= tempo,
        now1 <= now2,
        poss.len() == tracks.len(),
        fires.len() == tracks.len(),
        forall|j: int| 0 <= j < tracks.len() ==> 0 <= #[trigger] poss[j],
        forall|j: int| 0 <= j < tracks.len() ==> 0 <= #[trigger] fires[j] <= u64::MAX,
    ensures
        ({
            let r1 = sched_tick(tracks, poss, fires, tempo, tpb, now1, 0);
            let r2 = sched_tick(tracks, r1.0, r1.1, r1.2, tpb, now2, 0);
            forall|a: int, b: int|
                0 <= a < r1.3.len() && 0 <= b < r2.3.len() ==> (#[trigger] r1.3[a]).0 <= (
                #[trigger] r2.3[b]).0
        }),
{
    let r1 = sched_tick(tracks, poss, fires, tempo, tpb, now1, 0);
    lemma_tick_times(tracks, poss, fires, tempo, tpb, now1, 0);
    lemma_tick_emits_after(tracks, r1.0, r1.1, r1.2, tpb, now2, 0, now1);
}

/// A song being replayed: the parsed file, the shared tempo, and each
/// track's cursor and absolute next due time in microseconds.
pub struct Playback {
    ticks_per_beat: u16,
    tempo: u32,
    tracks: Vec<Vec<TrackEvent>>,
    pos: Vec<usize>,
    next_fire: Vec<u64>,
}

/// The first due time of a track started at `now`: its first event's
/// delay after `now`, or `now` itself for an empty track.
pub open spec fn initial_fire(track: Seq<TrackEvent>, tpb: int, now: int) -> int {
    sat_add_u64(
        now,
        if track.len() > 0 {
            delta_micros(tpb, 500000, track[0].delta as int)
        } else {
            0
        },
    )
}

impl Playback {
    pub closed spec fn tpb(&self) -> int {
        self.ticks_per_beat as int
    }

    pub closed spec fn tempo_now(&self) -> int {
        self.tempo as int
    }

    pub closed spec fn tracks_view(&self) -> Seq<Seq<TrackEvent>> {
        self.tracks@.map_values(|t: Vec<TrackEvent>| t@)
    }

    pub closed spec fn positions(&self) -> Seq<int> {
        self.pos@.map_values(|p: usize| p as int)
    }

    pub closed spec fn fires(&self) -> Seq<int> {
        self.next_fire@.map_values(|f: u64| f as int)
    }

    pub open spec fn wf(&self) -> bool {
        &&& self.tpb() > 0
        &&& self.positions().len() == self.tracks_view().len()
        &&& self.fires().len() == self.tracks_view().len()
        &&& forall|i: int|
            0 <= i < self.tracks_view().len() ==> #[trigger] self.positions()[i]
                <= self.tracks_view()[i].len()
    }

    /// Starts replaying a file at time `now`, with the default tempo of
    /// half a million microseconds per beat.
    pub fn new(file: MidiFile, now: u64) -> (r: Playback)
        requires
            file.ticks_per_beat > 0,
        ensures
            r.wf(),
            r.tracks_view() == file.tracks_view(),
            r.tpb() == file.ticks_per_beat as int,
            r.tempo_now() == 500000,
            r.positions() == Seq::new(file.tracks_view().len(), |i: int| 0int),
            r.fires() == Seq::new(
                file.tracks_view().len(),
                |i: int| initial_fire(file.tracks_view()[i], file.ticks_per_beat as int, now as int),
            ),
    {
        let ghost tv = file.tracks_view();
        let tpb = file.ticks_per_beat;
        let n = file.tracks.len();
        let mut pos: Vec<usize> = Vec::new();
        let mut next_fire: Vec<u64> = Vec::new();
        let mut i: usize = 0;
        while i < n
            invariant
                i <= n,
                n == file.tracks@.len(),
                tv == file.tracks_view(),
                tpb == file.ticks_per_beat,
                tpb > 0,
                pos@.map_values(|p: usize| p as int) =~= Seq::new(i as nat, |k: int| 0int),
                next_fire@.map_values(|f: u64| f as int) =~= Seq::new(
                    i as nat,
                    |k: int| initial_fire(tv[k], tpb as int, now as int),
                ),
            decreases n - i,
        {
            let ghost pv0 = pos@.map_values(|p: usize| p as int);
            let ghost fv0 = next_fire@.map_values(|f: u64| f as int);
            let track = &file.tracks[i];
            let d = if track.len() > 0 {
                delta_to_micros(tpb, 500000, track[0].delta)
            } else {
                0
            };
            pos.push(0);
            next_fire.push(sat_add(now, d));
            proof {
                assert(pos@.map_values(|p: usize| p as int) =~= pv0 + seq![0int]);
                assert(next_fire@.map_values(|f: u64| f as int) =~= fv0 + seq![
                    initial_fire(tv[i as int], tpb as int, now as int),
                ]);
                assert(pos@.map_values(|p: usize| p as int) =~= Seq::new((i + 1) as nat, |k: int| 0int));
                assert(next_fire@.map_values(|f: u64| f as int) =~= Seq::new(
                    (i + 1) as nat,
                    |k: int| initial_fire(tv[k], tpb as int, now as int),
                ));
            }
            i = i + 1;
        }
        Playback { ticks_per_beat: tpb, tempo: 500000, tracks: file.tracks, pos, next_fire }
    }

    /// Whether every track has been played to its end.
    pub open spec fn spec_done(&self) -> bool {
        forall|i: int|
            0 <= i < self.tracks_view().len() ==> #[trigger] self.positions()[i]
                >= self.tracks_view()[i].len()
    }

    /// Tests whether the song has run out of events.
    pub fn done(&self) -> (r: bool)
        requires
            self.wf(),
        ensures
            r == self.spec_done(),
    {
        let mut i: usize = 0;
        while i < self.tracks.len()
            invariant
                i <= self.tracks@.len(),
                self.wf(),
                forall|j: int|
                    0 <= j < i ==> #[trigger] self.positions()[j] >= self.tracks_view()[j].len(),
            decreases self.tracks@.len() - i,
        {
            proof {
                assert(self.positions()[i as int] == self.pos@[i as int] as int);
                assert(self.tracks_view()[i as int] == self.tracks@[i as int]@);
            }
            if self.pos[i] < self.tracks[i].len() {
                return false;
            }
            i = i + 1;
        }
        true
    }

    /// One poll of the scheduler at time `now`: every track consumes its
    /// due events in order, and the note commands come back in the order
    /// the single scheduler loop produces them.
    #[verifier::loop_isolation(false)]
    pub fn tick(&mut self, now: u64) -> (cmds: Vec<BuzzerMessage>)
        requires
            old(self).wf(),
        ensures
            final(self).wf(),
            ({
                let full = sched_tick(
                    old(self).tracks_view(),
                    old(self).positions(),
                    old(self).fires(),
                    old(self).tempo_now(),
                    old(self).tpb(),
                    now as int,
                    0,
                );
                &&& final(self).tracks_view() == old(self).tracks_view()
                &&& final(self).tpb() == old(self).tpb()
                &&& final(self).positions() == full.0
                &&& final(self).fires() == full.1
                &&& final(self).tempo_now() == full.2
                &&& cmds@ == cmds_of(full.3)
            }),
    {
        let ghost tv = old(self).tracks_view();
        let ghost full = sched_tick(
            tv,
            old(self).positions(),
            old(self).fires(),
            old(self).tempo_now(),
            old(self).tpb(),
            now as int,
            0,
        );
        let mut cmds: Vec<BuzzerMessage> = Vec::new();
        let ghost mut emitted: Seq<(int, BuzzerMessage)> = Seq::empty();
        let n = self.tracks.len();
        let mut ti: usize = 0;
        proof {
            assert(emitted + sched_tick(tv, self.positions(), self.fires(), self.tempo_now(), self.tpb(), now as int, 0).3
                =~= sched_tick(tv, self.positions(), self.fires(), self.tempo_now(), self.tpb(), now as int, 0).3);
        }
        while ti < n
            invariant
                ti <= n,
                self.wf(),
                self.tracks_view() == tv,
                self.tpb() == old(self).tpb(),
                ({
                    let rec = sched_tick(
                        tv,
                        self.positions(),
                        self.fires(),
                        self.tempo_now(),
                        self.tpb(),
                        now as int,
                        ti as int,
                    );
                    &&& full.0 == rec.0
                    &&& full.1 == rec.1
                    &&& full.2 == rec.2
                    &&& full.3 == emitted + rec.3
                }),
                cmds@ == cmds_of(emitted),
            decreases n - ti,
        {
            let ghost poss_at = self.positions();
            let ghost fires_at = self.fires();
            let ghost tempo_at = self.tempo_now();
            let track_len = self.tracks[ti].len();
            let mut p = self.pos[ti];
            let mut f = self.next_fire[ti];
            let mut tmp = self.tempo;
            let ghost r = track_run(tv[ti as int], p as int, f as int, tmp as int, self.tpb(), now as int);
            let ghost mut local: Seq<(int, BuzzerMessage)> = Seq::empty();
            proof {
                assert(local + track_run(tv[ti as int], p as int, f as int, tmp as int, self.tpb(), now as int).3
                    =~= track_run(tv[ti as int], p as int, f as int, tmp as int, self.tpb(), now as int).3);
            }
            while p < track_len && f <= now
                invariant
                    p <= track_len,
                    ({
                        let rec = track_run(
                            tv[ti as int],
                            p as int,
                            f as int,
                            tmp as int,
                            old(self).tpb(),
                            now as int,
                        );
                        &&& r.0 == rec.0
                        &&& r.1 == rec.1
                        &&& r.2 == rec.2
                        &&& r.3 == local + rec.3
                    }),
                    cmds@ == cmds_of(emitted + local),
                decreases track_len - p,
            {
                let ghost p0 = p as int;
                let ghost f0 = f as int;
                let ghost t0 = tmp as int;
                let ghost local0 = local;
                let ev = self.tracks[ti][p];
                p = p + 1;
                if let TrackEventKind::Tempo(t) = ev.kind {
                    tmp = t;
                }
                match midi_to_buzzer(ev.kind) {
                    Some((on, note)) => {
                        cmds.push(BuzzerMessage::Note { on, note });
                        proof {
                            local = local + seq![(f0, BuzzerMessage::Note { on, note })];
                        }
                    },
                    None => {},
                }
                if p < track_len {
                    let d = delta_to_micros(self.ticks_per_beat, tmp, self.tracks[ti][p].delta);
                    f = sat_add(f, d);
                }
                proof {
                    let step: Seq<(int, BuzzerMessage)> = match note_cmd(ev.kind) {
                        Some(m) => seq![(f0, m)],
                        None => Seq::empty(),
                    };
                    let stepped = track_run(
                        tv[ti as int],
                        p as int,
                        f as int,
                        tmp as int,
                        old(self).tpb(),
                        now as int,
                    );
                    let before = track_run(tv[ti as int], p0, f0, t0, old(self).tpb(), now as int);
                    assert(before.3 =~= step + stepped.3);
                    assert(local =~= local0 + step);
                    assert(local0 + before.3 =~= local + stepped.3);
                    assert(cmds@ =~= cmds_of(emitted + local));
                }
            }
            self.pos.set(ti, p);
            self.next_fire.set(ti, f);
            self.tempo = tmp;
            proof {
                assert(self.positions() =~= poss_at.update(ti as int, r.0));
                assert(self.fires() =~= fires_at.update(ti as int, r.1));
                let rec_next = sched_tick(
                    tv,
                    self.positions(),
                    self.fires(),
                    self.tempo_now(),
                    self.tpb(),
                    now as int,
                    ti as int + 1,
                );
                assert(emitted + (r.3 + rec_next.3) =~= (emitted + r.3) + rec_next.3);
                emitted = emitted + r.3;
                assert(cmds@ =~= cmds_of(emitted));
            }
            ti = ti + 1;
        }
        proof {
            assert(full.3 =~= emitted);
        }
        cmds
    }
}

/// What one poll of the playing engine decides, in its priority order.
#[derive(Debug)]
pub enum PlayerDirective {
    /// The song ran out of events: announce its end, clear the notes,
    /// and go idle.
    Finished,
    /// A new song was asked for: announce the current song's end and
    /// switch to the named file, replayed in a loop when the flag says
    /// so.
    Switch(String, bool),
    /// Playback was stopped: announce the current song's end, clear the
    /// notes, and go idle.
    Stopped,
    /// Playback goes on; these notes fell due.
    Notes(Vec<BuzzerMessage>),
}

/// One poll of a playing song, in the engine's priority order: a song
/// with no events left finishes first; then a pending command preempts
/// it mid-playback; only then do the due events play.
pub fn playback_poll(pb: &mut Playback, cmd: Option<PlayerMessage>, now: u64) -> (r:
    PlayerDirective)
    requires
        old(pb).wf(),
    ensures
        final(pb).wf(),
        old(pb).spec_done() ==> r == PlayerDirective::Finished && *final(pb) == *old(pb),
        !old(pb).spec_done() ==> (match cmd {
            Some(PlayerMessage::Play(p)) => r == PlayerDirective::Switch(p, false) && *final(pb)
                == *old(pb),
            Some(PlayerMessage::Loop(p)) => r == PlayerDirective::Switch(p, true) && *final(pb)
                == *old(pb),
            Some(PlayerMessage::Stop) => r == PlayerDirective::Stopped && *final(pb) == *old(pb),
            None => ({
                let full = sched_tick(
                    old(pb).tracks_view(),
                    old(pb).positions(),
                    old(pb).fires(),
                    old(pb).tempo_now(),
                    old(pb).tpb(),
                    now as int,
                    0,
                );
                &&& final(pb).tracks_view() == old(pb).tracks_view()
                &&& final(pb).tpb() == old(pb).tpb()
                &&& final(pb).positions() == full.0
                &&& final(pb).fires() == full.1
                &&& final(pb).tempo_now() == full.2
                &&& r matches PlayerDirective::Notes(v) && v@ == cmds_of(full.3)
            }),
        }),
{
    if pb.done() {
        return PlayerDirective::Finished;
    }
    match cmd {
        Some(PlayerMessage::Play(p)) => PlayerDirective::Switch(p, false),
        Some(PlayerMessage::Loop(p)) => PlayerDirective::Switch(p, true),
        Some(PlayerMessage::Stop) => PlayerDirective::Stopped,
        None => PlayerDirective::Notes(pb.tick(now)),
    }
}

/// The ordering law at the playback level: polling the same playback
/// twice at non-decreasing times — as `tick` does — emits every command
/// of the earlier poll with a due time no later than any command of the
/// later poll, across all tracks.
pub proof fn lemma_playback_order(pb: Playback, now1: u64, now2: u64)
    requires
        pb.wf(),
        now1 <= now2,
    ensures
        ({
            let r1 = sched_tick(
                pb.tracks_view(),
                pb.positions(),
                pb.fires(),
                pb.tempo_now(),
                pb.tpb(),
                now1 as int,
                0,
            );
            let r2 = sched_tick(pb.tracks_view(), r1.0, r1.1, r1.2, pb.tpb(), now2 as int, 0);
            forall|a: int, b: int|
                0 <= a < r1.3.len() && 0 <= b < r2.3.len() ==> (#[trigger] r1.3[a]).0 <= (
                #[trigger] r2.3[b]).0
        }),
{
    assert forall|j: int| 0 <= j < pb.tracks_view().len() implies 0 <= #[trigger] pb.positions()[j] by {
        assert(pb.positions()[j] == pb.pos@[j] as int);
    }
    assert forall|j: int|
        0 <= j < pb.tracks_view().len() implies 0 <= #[trigger] pb.fires()[j] <= u64::MAX by {
        assert(pb.fires()[j] == pb.next_fire@[j] as int);
    }
    lemma_tick_order(
        pb.tracks_view(),
        pb.positions(),
        pb.fires(),
        pb.tempo_now(),
        pb.tpb(),
        now1 as int,
        now2 as int,
    );
}

} // verus!

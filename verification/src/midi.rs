use vstd::prelude::*;

verus! {

/// One event of a track, as the playback engine needs it: note changes,
/// tempo changes, and a catch-all for everything it ignores.
#[derive(Clone, Copy, Debug, PartialEq, Eq, Structural)]
pub enum TrackEventKind {
    NoteOff { key: u8, vel: u8 },
    NoteOn { key: u8, vel: u8 },
    Aftertouch { key: u8, vel: u8 },
    /// A tempo change, in microseconds per beat.
    Tempo(u32),
    /// Any other well-formed event; it advances time but plays nothing.
    Other,
}

/// An event with the tick delay since the previous event of its track.
#[derive(Clone, Copy, Debug, PartialEq, Eq, Structural)]
pub struct TrackEvent {
    pub delta: u32,
    pub kind: TrackEventKind,
}

/// A parsed MIDI file with metrical timing: ticks per beat, and one event
/// list per track.
#[derive(Debug)]
pub struct MidiFile {
    pub ticks_per_beat: u16,
    pub tracks: Vec<Vec<TrackEvent>>,
}

impl MidiFile {
    /// The tracks as plain sequences.
    pub open spec fn tracks_view(&self) -> Seq<Seq<TrackEvent>> {
        self.tracks@.map_values(|t: Vec<TrackEvent>| t@)
    }
}

/// Why a byte string is not a playable MIDI file.
#[derive(Clone, Copy, Debug, PartialEq, Eq, Structural)]
pub enum MidiError {
    /// The bytes end in the middle of a structure they promise.
    Truncated,
    /// The file does not start with a well-formed header chunk.
    BadHeader,
    /// A track holds a malformed event.
    BadEvent,
    /// The file uses SMPTE timing or a zero tick rate, which this player
    /// does not support.
    UnsupportedTiming,
}

/// A big-endian 16-bit number at `pos`.
pub open spec fn spec_u16be(s: Seq<u8>, pos: int) -> int {
    s[pos] * 0x100 + s[pos + 1]
}

/// A big-endian 32-bit number at `pos`.
pub open spec fn spec_u32be(s: Seq<u8>, pos: int) -> int {
    s[pos] * 0x1000000 + s[pos + 1] * 0x10000 + s[pos + 2] * 0x100 + s[pos + 3]
}

/// A variable-length quantity read from `s` at `pos`, strictly below
/// `end`: up to `rounds` bytes, each holding seven value bits, all but
/// the last flagged by their top bit; `acc` carries the bits read so far.
pub open spec fn spec_vlq(s: Seq<u8>, pos: int, end: int, acc: int, rounds: nat) -> Result<
    (int, int),
    MidiError,
>
    decreases rounds,
{
    if rounds == 0 {
        Err(MidiError::BadEvent)
    } else if pos >= end {
        Err(MidiError::Truncated)
    } else {
        let b = s[pos];
        let acc2 = acc * 128 + (b as int % 128);
        if b < 128 {
            Ok((acc2, pos + 1))
        } else {
            spec_vlq(s, pos + 1, end, acc2, (rounds - 1) as nat)
        }
    }
}

/// A successful quantity ends past at least one byte and inside `end`.
pub proof fn lemma_vlq_advances(s: Seq<u8>, pos: int, end: int, acc: int, rounds: nat)
    requires
        0 <= acc,
        spec_vlq(s, pos, end, acc, rounds) is Ok,
    ensures
        pos < spec_vlq(s, pos, end, acc, rounds)->Ok_0.1 <= end,
        0 <= spec_vlq(s, pos, end, acc, rounds)->Ok_0.0,
    decreases rounds,
{
    let b = s[pos];
    if !(b < 128) {
        lemma_vlq_advances(s, pos + 1, end, acc * 128 + (b as int % 128), (rounds - 1) as nat);
    }
}

/// Reads a variable-length quantity of at most four bytes.
fn read_vlq(s: &[u8], pos: usize, end: usize) -> (r: Result<(u32, usize), MidiError>)
    requires
        pos <= end <= s@.len(),
    ensures
        (match r {
            Ok((v, p)) => spec_vlq(s@, pos as int, end as int, 0, 4) == Ok::<_, MidiError>(
                (v as int, p as int),
            ) && pos < p <= end && v < 0x10000000,
            Err(e) => spec_vlq(s@, pos as int, end as int, 0, 4) == Err::<(int, int), _>(e),
        }),
{
    let mut acc: u32 = 0;
    let mut p = pos;
    let mut rounds: u32 = 4;
    loop
        invariant
            pos <= p <= end <= s@.len(),
            rounds <= 4,
            rounds == 4 ==> acc == 0 && p == pos,
            rounds == 3 ==> acc < 0x80,
            rounds == 2 ==> acc < 0x4000,
            rounds == 1 ==> acc < 0x200000,
            rounds < 4 ==> pos < p,
            spec_vlq(s@, pos as int, end as int, 0, 4) == spec_vlq(
                s@,
                p as int,
                end as int,
                acc as int,
                rounds as nat,
            ),
        decreases rounds,
    {
        if rounds == 0 {
            return Err(MidiError::BadEvent);
        }
        if p >= end {
            return Err(MidiError::Truncated);
        }
        let b = s[p];
        let acc2 = acc * 128 + (b % 128) as u32;
        if b < 128 {
            return Ok((acc2, p + 1));
        }
        acc = acc2;
        p = p + 1;
        rounds = rounds - 1;
    }
}

/// A channel voice event whose data starts at `dpos`, under the status
/// byte `status`: program and pressure changes take one data byte, all
/// others two; data bytes must have a clear top bit. The status byte
/// becomes the new running status.
pub open spec fn spec_channel_event(s: Seq<u8>, dpos: int, end: int, status: u8) -> Result<
    (TrackEventKind, Option<u8>, int),
    MidiError,
> {
    let hi = status / 16;
    let n: int = if hi == 12 || hi == 13 {
        1
    } else {
        2
    };
    if dpos + n > end {
        Err(MidiError::Truncated)
    } else if s[dpos] >= 128 || (n == 2 && s[dpos + 1] >= 128) {
        Err(MidiError::BadEvent)
    } else {
        let kind = if hi == 8 {
            TrackEventKind::NoteOff { key: s[dpos], vel: s[dpos + 1] }
        } else if hi == 9 {
            TrackEventKind::NoteOn { key: s[dpos], vel: s[dpos + 1] }
        } else if hi == 10 {
            TrackEventKind::Aftertouch { key: s[dpos], vel: s[dpos + 1] }
        } else {
            TrackEventKind::Other
        };
        Ok((kind, Some(status), dpos + n))
    }
}

/// One event at `pos`: either a channel voice event (possibly under the
/// running status), a system-exclusive block, or a meta event. Meta and
/// system-exclusive events clear the running status.
pub open spec fn spec_event(s: Seq<u8>, pos: int, end: int, running: Option<u8>) -> Result<
    (TrackEventKind, Option<u8>, int),
    MidiError,
> {
    if pos >= end {
        Err(MidiError::Truncated)
    } else {
        let b = s[pos];
        if b < 128 {
            match running {
                Some(st) => spec_channel_event(s, pos, end, st),
                None => Err(MidiError::BadEvent),
            }
        } else if b < 0xF0 {
            spec_channel_event(s, pos + 1, end, b)
        } else if b == 0xF0 || b == 0xF7 {
            match spec_vlq(s, pos + 1, end, 0, 4) {
                Ok((len, p)) => if p + len <= end {
                    Ok((TrackEventKind::Other, None, p + len))
                } else {
                    Err(MidiError::Truncated)
                },
                Err(e) => Err(e),
            }
        } else if b == 0xFF {
            if pos + 2 > end {
                Err(MidiError::Truncated)
            } else {
                let ty = s[pos + 1];
                match spec_vlq(s, pos + 2, end, 0, 4) {
                    Ok((len, p)) => if p + len <= end {
                        if ty == 0x51 && len == 3 {
                            Ok((
                                TrackEventKind::Tempo(
                                    ((s[p] * 0x10000 + s[p + 1] * 0x100 + s[p + 2]) as u32),
                                ),
                                None,
                                p + len,
                            ))
                        } else {
                            Ok((TrackEventKind::Other, None, p + len))
                        }
                    } else {
                        Err(MidiError::Truncated)
                    },
                    Err(e) => Err(e),
                }
            }
        } else {
            Err(MidiError::BadEvent)
        }
    }
}

/// A successful event ends past at least one byte and inside `end`.
pub proof fn lemma_event_advances(s: Seq<u8>, pos: int, end: int, running: Option<u8>)
    requires
        spec_event(s, pos, end, running) is Ok,
    ensures
        pos < spec_event(s, pos, end, running)->Ok_0.2 <= end,
{
    let b = s[pos];
    if b >= 128 && (b == 0xF0 || b == 0xF7) {
        lemma_vlq_advances(s, pos + 1, end, 0, 4);
    } else if b >= 128 && b == 0xFF {
        lemma_vlq_advances(s, pos + 2, end, 0, 4);
    }
}

/// Reads one event.
fn read_event(s: &[u8], pos: usize, end: usize, running: Option<u8>) -> (r: Result<
    (TrackEventKind, Option<u8>, usize),
    MidiError,
>)
    requires
        pos <= end <= s@.len(),
    ensures
        (match r {
            Ok((kind, run2, p2)) => spec_event(s@, pos as int, end as int, running) == Ok::<
                _,
                MidiError,
            >((kind, run2, p2 as int)) && pos < p2 <= end,
            Err(e) => spec_event(s@, pos as int, end as int, running) == Err::<
                (TrackEventKind, Option<u8>, int),
                _,
            >(e),
        }),
{
    if pos >= end {
        return Err(MidiError::Truncated);
    }
    let b = s[pos];
    if b < 128 {
        match running {
            Some(st) => read_channel_event(s, pos, end, st),
            None => Err(MidiError::BadEvent),
        }
    } else if b < 0xF0 {
        read_channel_event(s, pos + 1, end, b)
    } else if b == 0xF0 || b == 0xF7 {
        match read_vlq(s, pos + 1, end) {
            Ok((len, p)) => {
                if (len as u128) <= (end as u128) - (p as u128) {
                    Ok((TrackEventKind::Other, None, p + len as usize))
                } else {
                    Err(MidiError::Truncated)
                }
            },
            Err(e) => Err(e),
        }
    } else if b == 0xFF {
        if end - pos < 2 {
            return Err(MidiError::Truncated);
        }
        let ty = s[pos + 1];
        match read_vlq(s, pos + 2, end) {
            Ok((len, p)) => {
                if (len as u128) <= (end as u128) - (p as u128) {
                    let kind = if ty == 0x51 && len == 3 {
                        TrackEventKind::Tempo(
                            (s[p] as u32) * 0x10000 + (s[p + 1] as u32) * 0x100 + (s[p + 2] as u32),
                        )
                    } else {
                        TrackEventKind::Other
                    };
                    Ok((kind, None, p + len as usize))
                } else {
                    Err(MidiError::Truncated)
                }
            },
            Err(e) => Err(e),
        }
    } else {
        Err(MidiError::BadEvent)
    }
}

/// Reads one channel voice event whose data starts at `dpos`.
fn read_channel_event(s: &[u8], dpos: usize, end: usize, status: u8) -> (r: Result<
    (TrackEventKind, Option<u8>, usize),
    MidiError,
>)
    requires
        dpos <= end <= s@.len(),
    ensures
        (match r {
            Ok((kind, run2, p2)) => spec_channel_event(s@, dpos as int, end as int, status)
                == Ok::<_, MidiError>((kind, run2, p2 as int)) && dpos < p2 <= end,
            Err(e) => spec_channel_event(s@, dpos as int, end as int, status) == Err::<
                (TrackEventKind, Option<u8>, int),
                _,
            >(e),
        }),
{
    let hi = status / 16;
    let n: usize = if hi == 12 || hi == 13 {
        1
    } else {
        2
    };
    if end - dpos < n {
        return Err(MidiError::Truncated);
    }
    if s[dpos] >= 128 || (n == 2 && s[dpos + 1] >= 128) {
        return Err(MidiError::BadEvent);
    }
    let kind = if hi == 8 {
        TrackEventKind::NoteOff { key: s[dpos], vel: s[dpos + 1] }
    } else if hi == 9 {
        TrackEventKind::NoteOn { key: s[dpos], vel: s[dpos + 1] }
    } else if hi == 10 {
        TrackEventKind::Aftertouch { key: s[dpos], vel: s[dpos + 1] }
    } else {
        TrackEventKind::Other
    };
    Ok((kind, Some(status), dpos + n))
}

/// The events of one track chunk's data, `pos` to `end`: a delta time
/// and an event, repeated until the data is exactly used up.
pub open spec fn spec_track(s: Seq<u8>, pos: int, end: int, running: Option<u8>) -> Result<
    Seq<TrackEvent>,
    MidiError,
>
    decreases end - pos,
    via spec_track_dec
{
    if pos >= end {
        Ok(Seq::empty())
    } else {
        match spec_vlq(s, pos, end, 0, 4) {
            Err(e) => Err(e),
            Ok((delta, p)) => match spec_event(s, p, end, running) {
                Err(e) => Err(e),
                Ok((kind, run2, p2)) => match spec_track(s, p2, end, run2) {
                    Err(e) => Err(e),
                    Ok(rest) => Ok(seq![TrackEvent { delta: delta as u32, kind }] + rest),
                },
            },
        }
    }
}

#[via_fn]
proof fn spec_track_dec(s: Seq<u8>, pos: int, end: int, running: Option<u8>) {
    if pos < end {
        if spec_vlq(s, pos, end, 0, 4) is Ok {
            lemma_vlq_advances(s, pos, end, 0, 4);
            let p = spec_vlq(s, pos, end, 0, 4)->Ok_0.1;
            if spec_event(s, p, end, running) is Ok {
                lemma_event_advances(s, p, end, running);
            }
        }
    }
}

/// Reads all events of one track chunk.
fn read_track(s: &[u8], pos: usize, end: usize) -> (r: Result<Vec<TrackEvent>, MidiError>)
    requires
        pos <= end <= s@.len(),
    ensures
        (match r {
            Ok(v) => spec_track(s@, pos as int, end as int, None) == Ok::<_, MidiError>(v@),
            Err(e) => spec_track(s@, pos as int, end as int, None) == Err::<Seq<TrackEvent>, _>(e),
        }),
{
    let mut events: Vec<TrackEvent> = Vec::new();
    let mut p = pos;
    let mut running: Option<u8> = None;
    while p < end
        invariant
            pos <= p <= end <= s@.len(),
            spec_track(s@, pos as int, end as int, None) == (match spec_track(
                s@,
                p as int,
                end as int,
                running,
            ) {
                Ok(rest) => Ok::<_, MidiError>(events@ + rest),
                Err(e) => Err(e),
            }),
        decreases end - p,
    {
        let ghost evs0 = events@;
        let (delta, p1) = match read_vlq(s, p, end) {
            Ok(x) => x,
            Err(e) => {
                return Err(e);
            },
        };
        let (kind, run2, p2) = match read_event(s, p1, end, running) {
            Ok(x) => x,
            Err(e) => {
                return Err(e);
            },
        };
        events.push(TrackEvent { delta, kind });
        proof {
            if spec_track(s@, p2 as int, end as int, run2) is Ok {
                let rest = spec_track(s@, p2 as int, end as int, run2)->Ok_0;
                assert(evs0 + (seq![TrackEvent { delta, kind }] + rest) =~= events@ + rest);
            }
        }
        running = run2;
        p = p2;
    }
    proof {
        assert(events@ + Seq::<TrackEvent>::empty() =~= events@);
    }
    Ok(events)
}

/// The `count` track chunks from `pos` on. A chunk is a four-byte name, a
/// big-endian length and that many payload bytes; chunks other than
/// `MTrk` are skipped, as the format asks.
pub open spec fn spec_chunks(s: Seq<u8>, pos: int, count: nat) -> Result<
    Seq<Seq<TrackEvent>>,
    MidiError,
>
    decreases count, s.len() - pos,
{
    if count == 0 {
        Ok(Seq::empty())
    } else if pos + 8 > s.len() {
        Err(MidiError::Truncated)
    } else {
        let len = spec_u32be(s, pos + 4);
        if pos + 8 + len > s.len() {
            Err(MidiError::Truncated)
        } else {
            if s[pos] == 0x4D && s[pos + 1] == 0x54 && s[pos + 2] == 0x72 && s[pos + 3] == 0x6B {
                match spec_track(s, pos + 8, pos + 8 + len, None) {
                    Err(e) => Err(e),
                    Ok(tr) => match spec_chunks(s, pos + 8 + len, (count - 1) as nat) {
                        Err(e) => Err(e),
                        Ok(rest) => Ok(seq![tr] + rest),
                    },
                }
            } else {
                spec_chunks(s, pos + 8 + len, count)
            }
        }
    }
}

/// What a well-formed file's bytes hold: ticks per beat and the tracks.
/// The header must be the six-byte `MThd` chunk; the division must be
/// metrical (top bit clear) and nonzero; and there must be as many track
/// chunks as the header promises.
pub open spec fn spec_parse(s: Seq<u8>) -> Result<(u16, Seq<Seq<TrackEvent>>), MidiError> {
    if s.len() < 14 {
        Err(MidiError::Truncated)
    } else if !(s[0] == 0x4D && s[1] == 0x54 && s[2] == 0x68 && s[3] == 0x64 && spec_u32be(s, 4)
        == 6) {
        Err(MidiError::BadHeader)
    } else {
        let ntracks = spec_u16be(s, 10);
        let division = spec_u16be(s, 12);
        if division >= 0x8000 || division == 0 {
            Err(MidiError::UnsupportedTiming)
        } else {
            match spec_chunks(s, 14, ntracks as nat) {
                Err(e) => Err(e),
                Ok(ts) => Ok(((division as u16), ts)),
            }
        }
    }
}

/// Parses a Standard MIDI File.
#[verifier::loop_isolation(false)]
pub fn parse_midi(s: &[u8]) -> (r: Result<MidiFile, MidiError>)
    ensures
        (match r {
            Ok(f) => spec_parse(s@) == Ok::<_, MidiError>((f.ticks_per_beat, f.tracks_view()))
                && f.ticks_per_beat > 0,
            Err(e) => spec_parse(s@) == Err::<(u16, Seq<Seq<TrackEvent>>), _>(e),
        }),
{
    if s.len() < 14 {
        return Err(MidiError::Truncated);
    }
    if !(s[0] == 0x4D && s[1] == 0x54 && s[2] == 0x68 && s[3] == 0x64) {
        return Err(MidiError::BadHeader);
    }
    if !(s[4] == 0 && s[5] == 0 && s[6] == 0 && s[7] == 6) {
        return Err(MidiError::BadHeader);
    }
    let ntracks = (s[10] as u32) * 0x100 + (s[11] as u32);
    let division = (s[12] as u32) * 0x100 + (s[13] as u32);
    if division >= 0x8000 || division == 0 {
        return Err(MidiError::UnsupportedTiming);
    }
    let mut tracks: Vec<Vec<TrackEvent>> = Vec::new();
    let mut p: usize = 14;
    let mut remaining = ntracks;
    proof {
        if spec_chunks(s@, 14, ntracks as nat) is Ok {
            let rest = spec_chunks(s@, 14, ntracks as nat)->Ok_0;
            assert(tracks@.map_values(|t: Vec<TrackEvent>| t@) + rest =~= rest);
        }
    }
    while remaining > 0
        invariant
            14 <= p <= s@.len(),
            remaining <= ntracks,
            spec_chunks(s@, 14, ntracks as nat) == (match spec_chunks(
                s@,
                p as int,
                remaining as nat,
            ) {
                Ok(rest) => Ok::<_, MidiError>(
                    tracks@.map_values(|t: Vec<TrackEvent>| t@) + rest,
                ),
                Err(e) => Err(e),
            }),
        decreases remaining, s@.len() - p,
    {
        let ghost tv0 = tracks@.map_values(|t: Vec<TrackEvent>| t@);
        if s.len() - p < 8 {
            return Err(MidiError::Truncated);
        }
        let len = (s[p + 4] as u32) * 0x1000000 + (s[p + 5] as u32) * 0x10000 + (s[p + 6] as u32)
            * 0x100 + (s[p + 7] as u32);
        if (len as u128) > (s.len() as u128) - (p as u128) - 8 {
            return Err(MidiError::Truncated);
        }
        let body = p + 8;
        let next = body + len as usize;
        if s[p] == 0x4D && s[p + 1] == 0x54 && s[p + 2] == 0x72 && s[p + 3] == 0x6B {
            let tr = match read_track(s, body, next) {
                Ok(tr) => tr,
                Err(e) => {
                    return Err(e);
                },
            };
            let ghost trv = tr@;
            tracks.push(tr);
            proof {
                assert(tracks@.map_values(|t: Vec<TrackEvent>| t@) =~= tv0 + seq![trv]);
                if spec_chunks(s@, next as int, (remaining - 1) as nat) is Ok {
                    let rest = spec_chunks(s@, next as int, (remaining - 1) as nat)->Ok_0;
                    assert(tv0 + (seq![trv] + rest) =~= (tv0 + seq![trv]) + rest);
                }
            }
            remaining = remaining - 1;
        }
        p = next;
    }
    let file = MidiFile { ticks_per_beat: division as u16, tracks };
    proof {
        assert(file.tracks_view() + Seq::<Seq<TrackEvent>>::empty() =~= file.tracks_view());
    }
    Ok(file)
}

} // verus!

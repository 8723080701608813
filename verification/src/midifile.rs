//! Standard MIDI Files: the parsed file is taken track by track, every
//! channel message is given its time under the tempo map of the first track,
//! and the tracks are merged into one sequence of events.

use crate::midifile_chunks::{find_unreadable_timing, has_unreadable_timing};
use std::collections::VecDeque;
use vstd::prelude::*;

verus! {

/// A MIDI channel message with its data bytes.
#[derive(Clone, Copy, Debug, PartialEq, Eq, Structural)]
pub enum ChannelMessage {
    NoteOff { key: u8, vel: u8 },
    NoteOn { key: u8, vel: u8 },
    Aftertouch { key: u8, vel: u8 },
    Controller { controller: u8, value: u8 },
    ProgramChange { program: u8 },
    ChannelAftertouch { vel: u8 },
    /// The position of the pitch wheel, 0x2000 being its center.
    PitchBend { bend: u16 },
}

/// What a track event carries, as far as playback is concerned.
#[derive(Clone, Copy, Debug, PartialEq, Eq, Structural)]
pub enum TrackEventKind {
    /// A message for one of the sixteen channels.
    Midi { channel: u8, message: ChannelMessage },
    /// A tempo change, in microseconds per beat.
    Tempo(u32),
    /// Anything else: system exclusive data, escapes, the other meta messages.
    Other,
}

/// One event of a track: the ticks since the previous event and the event.
#[derive(Clone, Copy, Debug, PartialEq, Eq, Structural)]
pub struct TrackEvent {
    pub delta: u32,
    pub kind: TrackEventKind,
}

impl TrackEventKind {
    pub open spec fn channel(self) -> Option<u8> {
        match self {
            TrackEventKind::Midi { channel, .. } => Some(channel),
            _ => None,
        }
    }

    pub open spec fn message(self) -> Option<ChannelMessage> {
        match self {
            TrackEventKind::Midi { message, .. } => Some(message),
            _ => None,
        }
    }

    pub open spec fn tempo(self) -> Option<u32> {
        match self {
            TrackEventKind::Tempo(us_per_beat) => Some(us_per_beat),
            _ => None,
        }
    }
}

/// `midly::Smf`: a parsed file.  What it holds is seen through
/// `smf_ticks_per_beat` and `smf_tracks` alone.
#[verifier::external_type_specification]
#[verifier::external_body]
pub struct ExSmf<'a>(midly::Smf<'a>);

/// `midly::Error`: why the parser rejects a file.  It is not looked into.
#[verifier::external_type_specification]
#[verifier::external_body]
pub struct ExSmfError(midly::Error);

/// `midly::MidiMessage`: a parsed channel message.  What it holds is seen
/// through `channel_message` alone.
#[verifier::external_type_specification]
#[verifier::external_body]
pub struct ExSmfMessage(midly::MidiMessage);

/// The ticks per beat in the header of a parsed file, `None` where the header
/// gives its timing as timecode.
pub uninterp spec fn smf_ticks_per_beat(smf: midly::Smf) -> Option<u16>;

/// The tracks of a parsed file, each with its events in file order.
pub uninterp spec fn smf_tracks(smf: midly::Smf) -> Seq<Seq<TrackEvent>>;

/// The variant and the data of a parsed channel message.
pub uninterp spec fn channel_message(message: midly::MidiMessage) -> ChannelMessage;

/// What the parser makes of a byte string: the header's ticks per beat and
/// the tracks, or `None` where it rejects the bytes.
pub uninterp spec fn smf_parsed(raw: Seq<u8>) -> Option<(Option<u16>, Seq<Seq<TrackEvent>>)>;

/// `midly::Smf::parse`.  The parser is a function of the bytes alone, so its
/// outcome is `smf_parsed` of them: it accepts the bytes where `smf_parsed`
/// is `Some`, and the file that comes back then holds what `smf_parsed`
/// says.
///
/// Reading a header chunk whose timing begins with the byte 0x80, the parser
/// negates -128 in eight bits, hence the precondition: it leaves out the
/// byte strings in which the parser comes to read such a timing.  The parser
/// takes the chunks from all the bytes or, of a RIFF file, from its first
/// `data` chunk, and passes from chunk to chunk by their lengths.  It reads
/// the timing of a header chunk once it has found six bytes of data in it
/// and a format of 0, 1 or 2.  It reads no chunk behind a header that it
/// could not read, and none where a track chunk stands before the first
/// header.
#[verifier::external_body]
fn parse_smf(raw: &[u8]) -> (parsed: Result<midly::Smf<'_>, midly::Error>)
    requires
        !has_unreadable_timing(raw@),
    ensures
        parsed is Ok <==> smf_parsed(raw@) is Some,
        parsed matches Ok(smf) ==> smf_parsed(raw@) == Some(
            (smf_ticks_per_beat(smf), smf_tracks(smf)),
        ),
{
    midly::Smf::parse(raw)
}

/// Reads the field `header.timing` of a `midly::Smf`: the ticks per beat of
/// `Timing::Metrical`, as `u15::as_int` gives them, and `None` for
/// `Timing::Timecode`.
#[verifier::external_body]
fn header_ticks_per_beat(smf: &midly::Smf) -> (ticks: Option<u16>)
    ensures
        ticks == smf_ticks_per_beat(*smf),
{
    match smf.header.timing {
        midly::Timing::Metrical(ticks) => Some(ticks.as_int()),
        midly::Timing::Timecode(..) => None,
    }
}

/// `Vec::len` of the field `tracks` of a `midly::Smf`.
#[verifier::external_body]
fn track_count(smf: &midly::Smf) -> (count: usize)
    ensures
        count == smf_tracks(*smf).len(),
{
    smf.tracks.len()
}

/// `Vec::len` of one track of a `midly::Smf`.
#[verifier::external_body]
fn track_len(smf: &midly::Smf, track: usize) -> (count: usize)
    requires
        track < smf_tracks(*smf).len(),
    ensures
        count == smf_tracks(*smf)[track as int].len(),
{
    smf.tracks[track].len()
}

/// Reads the field `delta` of one `midly::TrackEvent` of a `midly::Smf`, as
/// `u28::as_int` gives it.
#[verifier::external_body]
fn event_delta(smf: &midly::Smf, track: usize, index: usize) -> (delta: u32)
    requires
        track < smf_tracks(*smf).len(),
        index < smf_tracks(*smf)[track as int].len(),
    ensures
        delta == smf_tracks(*smf)[track as int][index as int].delta,
{
    smf.tracks[track][index].delta.as_int()
}

/// Reads the field `kind` of one `midly::TrackEvent` of a `midly::Smf`:
/// for `TrackEventKind::Meta(MetaMessage::Tempo(..))` the tempo, as
/// `u24::as_int` gives it, and `None` for every other kind.
#[verifier::external_body]
fn event_tempo(smf: &midly::Smf, track: usize, index: usize) -> (tempo: Option<u32>)
    requires
        track < smf_tracks(*smf).len(),
        index < smf_tracks(*smf)[track as int].len(),
    ensures
        tempo == smf_tracks(*smf)[track as int][index as int].kind.tempo(),
{
    match smf.tracks[track][index].kind {
        midly::TrackEventKind::Meta(midly::MetaMessage::Tempo(us_per_beat)) => Some(
            us_per_beat.as_int(),
        ),
        _ => None,
    }
}

/// Reads the field `kind` of one `midly::TrackEvent` of a `midly::Smf`:
/// for `TrackEventKind::Midi` the channel, as `u4::as_int` gives it, with the
/// message, and `None` for every other kind.
#[verifier::external_body]
fn event_midi(smf: &midly::Smf, track: usize, index: usize) -> (midi: Option<
    (u8, midly::MidiMessage),
>)
    requires
        track < smf_tracks(*smf).len(),
        index < smf_tracks(*smf)[track as int].len(),
    ensures
        midi is Some <==> smf_tracks(*smf)[track as int][index as int].kind is Midi,
        midi matches Some((channel, message)) ==> smf_tracks(
            *smf,
        )[track as int][index as int].kind == (TrackEventKind::Midi {
            channel,
            message: channel_message(message),
        }),
{
    match smf.tracks[track][index].kind {
        midly::TrackEventKind::Midi { channel, message } => Some((channel.as_int(), message)),
        _ => None,
    }
}

/// Takes a `midly::MidiMessage` apart: the same variant with the same data,
/// each number as `u7::as_int` or, for the pitch bend, `u14::as_int` gives
/// it.  This is what `channel_message` names.
#[verifier::external_body]
fn message_fields(message: midly::MidiMessage) -> (fields: ChannelMessage)
    ensures
        fields == channel_message(message),
{
    match message {
        midly::MidiMessage::NoteOff { key, vel } => ChannelMessage::NoteOff { key: key.as_int(), vel: vel.as_int() },
        midly::MidiMessage::NoteOn { key, vel } => ChannelMessage::NoteOn { key: key.as_int(), vel: vel.as_int() },
        midly::MidiMessage::Aftertouch { key, vel } => ChannelMessage::Aftertouch { key: key.as_int(), vel: vel.as_int() },
        midly::MidiMessage::Controller { controller, value } => ChannelMessage::Controller { controller: controller.as_int(), value: value.as_int() },
        midly::MidiMessage::ProgramChange { program } => ChannelMessage::ProgramChange { program: program.as_int() },
        midly::MidiMessage::ChannelAftertouch { vel } => ChannelMessage::ChannelAftertouch { vel: vel.as_int() },
        midly::MidiMessage::PitchBend { bend } => ChannelMessage::PitchBend { bend: bend.0.as_int() },
    }
}

/// Reads one event of a parsed file.
fn read_event(smf: &midly::Smf, track: usize, index: usize) -> (event: TrackEvent)
    requires
        track < smf_tracks(*smf).len(),
        index < smf_tracks(*smf)[track as int].len(),
    ensures
        event == smf_tracks(*smf)[track as int][index as int],
{
    let delta: u32 = event_delta(smf, track, index);
    let kind = match event_midi(smf, track, index) {
        Some((channel, message)) => TrackEventKind::Midi {
            channel,
            message: message_fields(message),
        },
        None => match event_tempo(smf, track, index) {
            Some(us_per_beat) => TrackEventKind::Tempo(us_per_beat),
            None => TrackEventKind::Other,
        },
    };
    TrackEvent { delta, kind }
}


/// The tempo that holds until a file sets one, in microseconds per beat.
pub const DEFAULT_TEMPO: u32 = 500_000;

/// A channel message with the time at which it is due.
///
/// Times are counted in microsecond-ticks: seconds times a million times the
/// file's ticks per beat.  A tick that lasts `t` microseconds per beat adds
/// `t` to the time, so every time is a whole number.
#[derive(Clone, Copy, Debug, PartialEq, Eq, Structural)]
pub struct MidiEvent {
    pub time: u128,
    pub ch: u8,
    pub msg: ChannelMessage,
}

/// A point of the tempo map: from `tick` on, which is reached at `time`, a
/// beat lasts `us_per_beat` microseconds.
#[derive(Clone, Copy, Debug, PartialEq, Eq, Structural)]
pub struct TempoChange {
    pub tick: u128,
    pub time: u128,
    pub us_per_beat: u32,
}

/// Why a byte string is no playable MIDI file.
#[derive(Clone, Copy, Debug, PartialEq, Eq, Structural)]
pub enum MidiFileError {
    /// The bytes are no Standard MIDI File.
    Malformed,
    /// The header gives the timing as timecode, which is not supported.
    TimecodeNotSupported,
}

/// A Standard MIDI File, linearized: the channel messages of all tracks in
/// the order in which they are due.
#[derive(Debug)]
pub struct MidiFile {
    events: Vec<MidiEvent>,
    ticks_per_beat: u16,
}

/// The tick at which the `n`-th event of a track is due: the sum of the deltas
/// of its first `n` events.
pub open spec fn tick_of(track: Seq<TrackEvent>, n: int) -> int
    decreases n,
{
    if n <= 0 {
        0
    } else {
        tick_of(track, n - 1) + track[n - 1].delta
    }
}

/// The time at which `tick` is reached under a tempo map: the last point at
/// or before the tick gives the time and the tempo to go on from; before the
/// first point the default tempo holds.
pub open spec fn time_at(changes: Seq<TempoChange>, tick: int) -> int
    decreases changes.len(),
{
    if changes.len() == 0 {
        tick * DEFAULT_TEMPO
    } else {
        let last = changes.last();
        if last.tick <= tick {
            last.time + (tick - last.tick) * last.us_per_beat
        } else {
            time_at(changes.drop_last(), tick)
        }
    }
}

/// The tempo map that the first `n` events of the leading track set up: one
/// point for each tempo message, at the tick of the message and at the time
/// at which the map so far reaches that tick.
pub open spec fn tempo_map(lead: Seq<TrackEvent>, n: int) -> Seq<TempoChange>
    decreases n,
{
    if n <= 0 {
        Seq::empty()
    } else {
        let before = tempo_map(lead, n - 1);
        match lead[n - 1].kind {
            TrackEventKind::Tempo(us_per_beat) => before.push(
                TempoChange {
                    tick: tick_of(lead, n) as u128,
                    time: time_at(before, tick_of(lead, n)) as u128,
                    us_per_beat,
                },
            ),
            _ => before,
        }
    }
}

/// The channel messages among the first `n` events of a track, each with the
/// time at which the tempo map reaches its tick.
pub open spec fn timed_events(track: Seq<TrackEvent>, changes: Seq<TempoChange>, n: int) -> Seq<
    MidiEvent,
>
    decreases n,
{
    if n <= 0 {
        Seq::empty()
    } else {
        let before = timed_events(track, changes, n - 1);
        match track[n - 1].kind {
            TrackEventKind::Midi { channel, message } => before.push(
                MidiEvent {
                    time: time_at(changes, tick_of(track, n)) as u128,
                    ch: channel,
                    msg: message,
                },
            ),
            _ => before,
        }
    }
}

/// Among the first `n` queues, the first whose next event is the earliest, or
/// -1 where none of them has an event left.
pub open spec fn earliest(queues: Seq<Seq<MidiEvent>>, cursors: Seq<int>, n: int) -> int
    decreases n,
{
    if n <= 0 {
        -1
    } else {
        let found = earliest(queues, cursors, n - 1);
        if cursors[n - 1] >= queues[n - 1].len() {
            found
        } else if found < 0 || queues[n - 1][cursors[n - 1]].time
            < queues[found][cursors[found]].time {
            n - 1
        } else {
            found
        }
    }
}

/// The next `steps` events of the merge: each time the earliest next event of
/// all queues, of two equally early ones that of the queue that comes first.
pub open spec fn merge_from(queues: Seq<Seq<MidiEvent>>, cursors: Seq<int>, steps: nat) -> Seq<
    MidiEvent,
>
    decreases steps,
{
    let next = earliest(queues, cursors, queues.len() as int);
    if steps == 0 || next < 0 {
        Seq::empty()
    } else {
        seq![queues[next][cursors[next]]] + merge_from(
            queues,
            cursors.update(next, cursors[next] + 1),
            (steps - 1) as nat,
        )
    }
}

/// The number of events that the first `n` queues have left.
pub open spec fn remaining(queues: Seq<Seq<MidiEvent>>, cursors: Seq<int>, n: int) -> int
    decreases n,
{
    if n <= 0 {
        0
    } else {
        remaining(queues, cursors, n - 1) + (queues[n - 1].len() - cursors[n - 1])
    }
}

/// Cursors that stand at the start of each of `n` queues.
pub open spec fn at_start(n: nat) -> Seq<int> {
    Seq::new(n, |i: int| 0int)
}

/// All events of the queues in one sequence, in the order in which they are
/// due.
pub open spec fn merged(queues: Seq<Seq<MidiEvent>>) -> Seq<MidiEvent> {
    let start = at_start(queues.len());
    merge_from(queues, start, remaining(queues, start, queues.len() as int) as nat)
}

/// The tempo map of a file: that of its first track.
pub open spec fn file_tempo_map(tracks: Seq<Seq<TrackEvent>>) -> Seq<TempoChange> {
    if tracks.len() == 0 {
        Seq::empty()
    } else {
        tempo_map(tracks[0], tracks[0].len() as int)
    }
}

/// The events of a file: the channel messages of every track, timed by the
/// tempo map of the first track and merged.
pub open spec fn linearized(tracks: Seq<Seq<TrackEvent>>) -> Seq<MidiEvent> {
    merged(
        Seq::new(
            tracks.len(),
            |i: int| timed_events(tracks[i], file_tempo_map(tracks), tracks[i].len() as int),
        ),
    )
}

/// The tracks as sequences.
pub open spec fn track_views(tracks: Seq<Vec<TrackEvent>>) -> Seq<Seq<TrackEvent>> {
    Seq::new(tracks.len(), |i: int| tracks[i]@)
}

/// The largest number of ticks that a track can span.
pub open spec fn tick_limit() -> int {
    0xFFFF_FFFF_FFFF_FFFFint * 0xFFFF_FFFF
}

/// Every point of a tempo map lies at or before `tick`, the points follow
/// each other in time, and none is reached later than the slowest tempo
/// allows.
pub open spec fn tempo_map_within(changes: Seq<TempoChange>, tick: int) -> bool {
    &&& forall|i: int|
        0 <= i < changes.len() ==> (#[trigger] changes[i]).tick <= tick && changes[i].time
            <= changes[i].tick * 0xFFFF_FFFF
    &&& forall|i: int, j: int|
        0 <= i <= j < changes.len() ==> (#[trigger] changes[i]).tick <= (#[trigger] changes[j]).tick
}

proof fn lemma_mul_le(a: int, b: int, c: int)
    by (nonlinear_arith)
    requires
        0 <= a,
        b <= c,
    ensures
        a * b <= a * c,
{
}

/// The ticks of a track grow with each event by at most 2^32 - 1.
pub proof fn lemma_tick_of_bounds(track: Seq<TrackEvent>, n: int)
    requires
        0 <= n <= track.len(),
    ensures
        0 <= tick_of(track, n) <= n * 0xFFFF_FFFF,
        n > 0 ==> tick_of(track, n) == tick_of(track, n - 1) + track[n - 1].delta,
        n > 0 ==> tick_of(track, n - 1) <= tick_of(track, n),
    decreases n,
{
    if n > 0 {
        lemma_tick_of_bounds(track, n - 1);
    }
}

/// A tick is reached no later than the slowest tempo allows.
pub proof fn lemma_time_at_bounds(changes: Seq<TempoChange>, tick: int)
    requires
        0 <= tick,
        forall|i: int|
            0 <= i < changes.len() ==> (#[trigger] changes[i]).time <= changes[i].tick
                * 0xFFFF_FFFF,
    ensures
        0 <= time_at(changes, tick) <= tick * 0xFFFF_FFFF,
    decreases changes.len(),
{
    if changes.len() == 0 {
    } else {
        let last = changes.last();
        if last.tick <= tick {
            lemma_mul_le(tick - last.tick, last.us_per_beat as int, 0xFFFF_FFFF);
            assert(0 <= (tick - last.tick) * last.us_per_beat) by (nonlinear_arith)
                requires
                    0 <= tick - last.tick,
                    0 <= last.us_per_beat,
            ;
            assert(last.tick * 0xFFFF_FFFF + (tick - last.tick) * 0xFFFF_FFFF == tick
                * 0xFFFF_FFFF) by (nonlinear_arith);
        } else {
            lemma_time_at_bounds(changes.drop_last(), tick);
        }
    }
}

/// Points that lie after `tick` do not matter for the time at which `tick`
/// is reached.
pub proof fn lemma_time_at_ignores_later(changes: Seq<TempoChange>, passed: int, tick: int)
    requires
        0 <= passed <= changes.len(),
        forall|i: int| passed <= i < changes.len() ==> (#[trigger] changes[i]).tick > tick,
    ensures
        time_at(changes, tick) == time_at(changes.take(passed), tick),
    decreases changes.len(),
{
    if passed == changes.len() {
        assert(changes.take(passed) =~= changes);
    } else {
        assert(changes.last().tick > tick);
        lemma_time_at_ignores_later(changes.drop_last(), passed, tick);
        assert(changes.drop_last().take(passed) =~= changes.take(passed));
    }
}

/// The tempo map of a track lies within the ticks that the track spans.
pub proof fn lemma_tempo_map_within(lead: Seq<TrackEvent>, n: int)
    requires
        0 <= n <= lead.len() <= 0xFFFF_FFFF_FFFF_FFFF,
    ensures
        tempo_map_within(tempo_map(lead, n), tick_of(lead, n)),
        tempo_map(lead, n).len() <= n,
    decreases n,
{
    if n > 0 {
        lemma_tempo_map_within(lead, n - 1);
        lemma_tick_of_bounds(lead, n);
        let before = tempo_map(lead, n - 1);
        let tick = tick_of(lead, n);
        lemma_time_at_bounds(before, tick);
        assert(tick * 0xFFFF_FFFF <= 0xFFFF_FFFF_FFFF_FFFF * 0xFFFF_FFFF * 0xFFFF_FFFF)
            by (nonlinear_arith)
            requires
                0 <= tick <= n * 0xFFFF_FFFF,
                n <= 0xFFFF_FFFF_FFFF_FFFF,
        ;
    }
}

/// The time at which `tick` is reached, given how many points of the map lie
/// at or before it.
fn time_of_tick(changes: &Vec<TempoChange>, passed: usize, tick: u128) -> (time: u128)
    requires
        passed <= changes.len(),
        tick <= tick_limit(),
        tempo_map_within(changes@, tick_limit()),
        passed > 0 ==> changes[passed - 1].tick <= tick,
        forall|i: int| passed <= i < changes.len() ==> (#[trigger] changes[i]).tick > tick,
    ensures
        time == time_at(changes@, tick as int),
{
    proof {
        lemma_time_at_ignores_later(changes@, passed as int, tick as int);
        lemma_time_at_bounds(changes@.take(passed as int), tick as int);
        assert(tick * 0xFFFF_FFFF <= 0xFFFF_FFFF_FFFF_FFFF * 0xFFFF_FFFF * 0xFFFF_FFFF)
            by (nonlinear_arith)
            requires
                0 <= tick <= 0xFFFF_FFFF_FFFF_FFFF * 0xFFFF_FFFF,
        ;
    }
    if passed == 0 {
        assert(changes@.take(0).len() == 0);
        tick * (DEFAULT_TEMPO as u128)
    } else {
        let last = changes[passed - 1];
        proof {
            let taken = changes@.take(passed as int);
            assert(taken.last() == last);
            lemma_mul_le(tick - last.tick, last.us_per_beat as int, 0xFFFF_FFFF);
            lemma_mul_le(tick - last.tick, 0, last.us_per_beat as int);
            lemma_mul_le(0xFFFF_FFFF, tick - last.tick, tick as int);
            assert((tick - last.tick) * 0xFFFF_FFFF == 0xFFFF_FFFF * (tick - last.tick))
                by (nonlinear_arith);
        }
        last.time + (tick - last.tick) * (last.us_per_beat as u128)
    }
}

/// Builds the tempo map of the leading track.
fn build_tempo_map(lead: &Vec<TrackEvent>) -> (changes: Vec<TempoChange>)
    ensures
        changes@ == tempo_map(lead@, lead@.len() as int),
        tempo_map_within(changes@, tick_limit()),
{
    let mut changes: Vec<TempoChange> = Vec::new();
    let mut tick: u128 = 0;
    let mut i: usize = 0;
    while i < lead.len()
        invariant
            i <= lead.len(),
            tick == tick_of(lead@, i as int),
            changes@ == tempo_map(lead@, i as int),
        decreases lead.len() - i,
    {
        proof {
            lemma_tick_of_bounds(lead@, i as int);
            lemma_tick_of_bounds(lead@, i + 1);
            lemma_tempo_map_within(lead@, i as int);
            lemma_tempo_map_within(lead@, i + 1);
        }
        let event = lead[i];
        tick = tick + event.delta as u128;
        match event.kind {
            TrackEventKind::Tempo(us_per_beat) => {
                let time = time_of_tick(&changes, changes.len(), tick);
                changes.push(TempoChange { tick, time, us_per_beat });
            },
            _ => {},
        }
        i += 1;
    }
    proof {
        lemma_tempo_map_within(lead@, lead@.len() as int);
        lemma_tick_of_bounds(lead@, lead@.len() as int);
    }
    changes
}

/// Times the channel messages of one track by a tempo map.
fn time_track(track: &Vec<TrackEvent>, changes: &Vec<TempoChange>) -> (events: VecDeque<
    MidiEvent,
>)
    requires
        tempo_map_within(changes@, tick_limit()),
    ensures
        events@ == timed_events(track@, changes@, track@.len() as int),
{
    let mut events: VecDeque<MidiEvent> = VecDeque::new();
    let mut tick: u128 = 0;
    let mut passed: usize = 0;
    let mut i: usize = 0;
    while i < track.len()
        invariant
            i <= track.len(),
            passed <= changes.len(),
            tick == tick_of(track@, i as int),
            passed > 0 ==> changes[passed - 1].tick <= tick,
            tempo_map_within(changes@, tick_limit()),
            events@ == timed_events(track@, changes@, i as int),
        decreases track.len() - i,
    {
        proof {
            lemma_tick_of_bounds(track@, i as int);
            lemma_tick_of_bounds(track@, i + 1);
        }
        let event = track[i];
        tick = tick + event.delta as u128;
        while passed < changes.len() && changes[passed].tick <= tick
            invariant
                passed <= changes.len(),
                passed > 0 ==> changes[passed - 1].tick <= tick,
            decreases changes.len() - passed,
        {
            passed += 1;
        }
        match event.kind {
            TrackEventKind::Midi { channel, message } => {
                let time = time_of_tick(changes, passed, tick);
                events.push_back(MidiEvent { time, ch: channel, msg: message });
            },
            _ => {},
        }
        i += 1;
    }
    events
}

/// The queues as sequences.
pub open spec fn queue_views(queues: Seq<VecDeque<MidiEvent>>) -> Seq<Seq<MidiEvent>> {
    Seq::new(queues.len(), |i: int| queues[i]@)
}

/// What is left of each queue behind its cursor.
pub open spec fn rests(queues: Seq<Seq<MidiEvent>>, cursors: Seq<int>) -> Seq<Seq<MidiEvent>> {
    Seq::new(queues.len(), |i: int| queues[i].skip(cursors[i]))
}

/// Taking the next event of one queue leaves one event less.
pub proof fn lemma_remaining_step(queues: Seq<Seq<MidiEvent>>, cursors: Seq<int>, n: int, at: int)
    requires
        0 <= n <= queues.len() == cursors.len(),
        0 <= at < queues.len(),
    ensures
        remaining(queues, cursors.update(at, cursors[at] + 1), n) == remaining(queues, cursors, n)
            - if at < n {
            1int
        } else {
            0int
        },
    decreases n,
{
    if n > 0 {
        lemma_remaining_step(queues, cursors, n - 1, at);
    }
}

/// A queue that has events left makes the whole have at least as many left.
pub proof fn lemma_remaining_lower_bound(
    queues: Seq<Seq<MidiEvent>>,
    cursors: Seq<int>,
    n: int,
    at: int,
)
    requires
        0 <= at < n <= queues.len() == cursors.len(),
        forall|i: int| 0 <= i < queues.len() ==> 0 <= #[trigger] cursors[i] <= queues[i].len(),
    ensures
        remaining(queues, cursors, n) >= queues[at].len() - cursors[at],
        remaining(queues, cursors, n) >= 0,
    decreases n,
{
    if n - 1 > at {
        lemma_remaining_lower_bound(queues, cursors, n - 1, at);
    } else {
        lemma_remaining_nonnegative(queues, cursors, n - 1);
    }
}

/// Queues whose cursors lie within them have no fewer than no events left.
pub proof fn lemma_remaining_nonnegative(queues: Seq<Seq<MidiEvent>>, cursors: Seq<int>, n: int)
    requires
        0 <= n <= queues.len() == cursors.len(),
        forall|i: int| 0 <= i < queues.len() ==> 0 <= #[trigger] cursors[i] <= queues[i].len(),
    ensures
        remaining(queues, cursors, n) >= 0,
    decreases n,
{
    if n > 0 {
        lemma_remaining_nonnegative(queues, cursors, n - 1);
    }
}

/// What `earliest` finds is a queue with an event left.
pub proof fn lemma_earliest_in_range(queues: Seq<Seq<MidiEvent>>, cursors: Seq<int>, n: int)
    requires
        0 <= n <= queues.len() == cursors.len(),
    ensures
        -1 <= earliest(queues, cursors, n) < n,
        earliest(queues, cursors, n) >= 0 ==> cursors[earliest(queues, cursors, n)]
            < queues[earliest(queues, cursors, n)].len(),
    decreases n,
{
    if n > 0 {
        lemma_earliest_in_range(queues, cursors, n - 1);
    }
}

/// The queue whose next event is due first is the same whether the queues
/// are looked at behind their cursors or what is left of them from its
/// start.
pub proof fn lemma_earliest_of_rests(queues: Seq<Seq<MidiEvent>>, cursors: Seq<int>, n: int)
    requires
        0 <= n <= queues.len() == cursors.len(),
        forall|i: int| 0 <= i < queues.len() ==> 0 <= #[trigger] cursors[i] <= queues[i].len(),
    ensures
        earliest(rests(queues, cursors), at_start(queues.len()), n) == earliest(queues, cursors, n),
    decreases n,
{
    if n > 0 {
        lemma_earliest_of_rests(queues, cursors, n - 1);
        lemma_earliest_in_range(queues, cursors, n - 1);
    }
}

/// The queue whose first event is due first, if any has an event left.
fn find_earliest(queues: &Vec<VecDeque<MidiEvent>>) -> (found: Option<usize>)
    ensures
        match found {
            Some(at) => at == earliest(
                queue_views(queues@),
                at_start(queues@.len()),
                queues.len() as int,
            ),
            None => earliest(queue_views(queues@), at_start(queues@.len()), queues.len() as int)
                < 0,
        },
{
    let mut found: Option<usize> = None;
    let mut i: usize = 0;
    while i < queues.len()
        invariant
            i <= queues.len(),
            match found {
                Some(at) => at == earliest(queue_views(queues@), at_start(queues@.len()), i as int),
                None => earliest(queue_views(queues@), at_start(queues@.len()), i as int) < 0,
            },
        decreases queues.len() - i,
    {
        proof {
            lemma_earliest_in_range(queue_views(queues@), at_start(queues@.len()), i as int);
        }
        if queues[i].len() > 0 {
            let time = queues[i][0].time;
            match found {
                Some(at) => {
                    if time < queues[at][0].time {
                        found = Some(i);
                    }
                },
                None => {
                    found = Some(i);
                },
            }
        }
        i += 1;
    }
    found
}

/// Merges the timed tracks into one sequence of events: the event that is
/// due first leaves the front of its queue, until every queue is empty.
fn merge_tracks(timed: Vec<VecDeque<MidiEvent>>) -> (events: Vec<MidiEvent>)
    ensures
        events@ == merged(queue_views(timed@)),
{
    let mut queues = timed;
    let ghost all = queue_views(queues@);
    let ghost mut cursors: Seq<int> = at_start(all.len());
    let ghost mut fuel: int = remaining(all, cursors, all.len() as int);
    proof {
        lemma_remaining_nonnegative(all, cursors, all.len() as int);
        assert(rests(all, cursors) =~= all) by {
            assert forall|q: int| 0 <= q < all.len() implies all[q].skip(0) == all[q] by {
                assert(all[q].skip(0) =~= all[q]);
            }
        }
    }
    let mut events: Vec<MidiEvent> = Vec::new();
    loop
        invariant
            queues.len() == all.len() == cursors.len(),
            forall|q: int| 0 <= q < all.len() ==> 0 <= #[trigger] cursors[q] <= all[q].len(),
            queue_views(queues@) == rests(all, cursors),
            fuel == remaining(all, cursors, all.len() as int),
            fuel >= 0,
            merged(all) == events@ + merge_from(all, cursors, fuel as nat),
        ensures
            events@ == merged(all),
        decreases fuel,
    {
        let ghost before = cursors;
        proof {
            lemma_earliest_in_range(all, before, all.len() as int);
            lemma_earliest_of_rests(all, before, all.len() as int);
        }
        match find_earliest(&queues) {
            Some(at) => {
                let ghost event = all[at as int][before[at as int]];
                let ghost listed = events@;
                proof {
                    lemma_remaining_lower_bound(all, before, all.len() as int, at as int);
                    lemma_remaining_step(all, before, all.len() as int, at as int);
                    assert(queues[at as int]@ == rests(all, before)[at as int]);
                }
                let taken = queues[at].pop_front();
                if let Some(first) = taken {
                    events.push(first);
                }
                proof {
                    cursors = before.update(at as int, before[at as int] + 1);
                    assert(taken == Some(event));
                    assert(queue_views(queues@) =~= rests(all, cursors)) by {
                        assert forall|q: int| 0 <= q < all.len() implies queues[q]@ == all[q].skip(
                            cursors[q],
                        ) by {
                            if q == at {
                                assert(all[q].skip(before[q]).subrange(
                                    1,
                                    all[q].skip(before[q]).len() as int,
                                ) =~= all[q].skip(before[q] + 1));
                            } else {
                                assert(queues[q]@ == rests(all, before)[q]);
                            }
                        }
                    }
                    assert(merge_from(all, before, fuel as nat) == seq![event] + merge_from(
                        all,
                        cursors,
                        (fuel - 1) as nat,
                    ));
                    assert(events@ + merge_from(all, cursors, (fuel - 1) as nat) =~= listed + (
                    seq![event] + merge_from(all, cursors, (fuel - 1) as nat)));
                    fuel = fuel - 1;
                }
            },
            None => {
                assert(merge_from(all, before, fuel as nat) =~= Seq::<MidiEvent>::empty());
                assert(events@ + Seq::<MidiEvent>::empty() =~= events@);
                break ;
            },
        }
    }
    events
}

/// Copies the tracks out of a parsed file.
fn read_tracks(smf: &midly::Smf) -> (tracks: Vec<Vec<TrackEvent>>)
    ensures
        track_views(tracks@) == smf_tracks(*smf),
{
    let count: usize = track_count(smf);
    let mut tracks: Vec<Vec<TrackEvent>> = Vec::new();
    while tracks.len() < count
        invariant
            count == smf_tracks(*smf).len(),
            tracks.len() <= count,
            forall|t: int| 0 <= t < tracks.len() ==> (#[trigger] tracks[t])@ == smf_tracks(*smf)[t],
        decreases count - tracks.len(),
    {
        let t: usize = tracks.len();
        let length: usize = track_len(smf, t);
        let mut events: Vec<TrackEvent> = Vec::new();
        while events.len() < length
            invariant
                t < smf_tracks(*smf).len(),
                length == smf_tracks(*smf)[t as int].len(),
                events.len() <= length,
                forall|i: int|
                    0 <= i < events.len() ==> #[trigger] events[i] == smf_tracks(
                        *smf,
                    )[t as int][i],
            decreases length - events.len(),
        {
            let event = read_event(smf, t, events.len());
            events.push(event);
        }
        assert(events@ =~= smf_tracks(*smf)[t as int]);
        tracks.push(events);
    }
    assert(track_views(tracks@) =~= smf_tracks(*smf));
    tracks
}

impl MidiFile {
    /// The file is what the tracks with this timing linearize to.
    pub open spec fn holds(&self, ticks_per_beat: u16, tracks: Seq<Seq<TrackEvent>>) -> bool {
        &&& self.ticks_per_beat_view() == ticks_per_beat
        &&& self.view() == linearized(tracks)
    }

    /// The events in the order in which they are due.
    pub closed spec fn view(&self) -> Seq<MidiEvent> {
        self.events@
    }

    /// The ticks that the file counts in a beat.
    pub closed spec fn ticks_per_beat_view(&self) -> u16 {
        self.ticks_per_beat
    }

    /// What loading a byte string gives: the parser's tracks linearized, or
    /// the reason why not.
    pub open spec fn loaded(raw: Seq<u8>) -> Result<(u16, Seq<MidiEvent>), MidiFileError> {
        if has_unreadable_timing(raw) {
            Err(MidiFileError::Malformed)
        } else {
            match smf_parsed(raw) {
                None => Err(MidiFileError::Malformed),
                Some((None, _)) => Err(MidiFileError::TimecodeNotSupported),
                Some((Some(ticks_per_beat), tracks)) => Ok((ticks_per_beat, linearized(tracks))),
            }
        }
    }

    /// Loads a Standard MIDI File from its bytes.
    ///
    /// Refused as malformed are the bytes that the parser rejects, and those
    /// with a header chunk whose timing begins with the byte 0x80: a timecode
    /// of 128 frames, which does not exist and which the parser cannot read.
    /// Only a header chunk that the parser reads counts, where a chunk
    /// begins; the same bytes in the data of a track are data, and the file
    /// is loaded.  Timecode timing is refused as not supported.
    pub fn new(raw: &[u8]) -> (result: Result<Self, MidiFileError>)
        ensures
            match Self::loaded(raw@) {
                Ok((ticks_per_beat, events)) => result matches Ok(file)
                    && file.ticks_per_beat_view() == ticks_per_beat && file@ == events,
                Err(error) => result matches Err(e) && e == error,
            },
            result matches Ok(file) ==> crate::midifile_order::sorted_by_time(file@),
    {
        if find_unreadable_timing(raw) {
            return Err(MidiFileError::Malformed);
        }
        let smf = match parse_smf(raw) {
            Ok(smf) => smf,
            Err(_) => {
                return Err(MidiFileError::Malformed);
            },
        };
        let ticks_per_beat: u16 = match header_ticks_per_beat(&smf) {
            Some(ticks) => ticks,
            None => {
                return Err(MidiFileError::TimecodeNotSupported);
            },
        };
        let tracks = read_tracks(&smf);
        Ok(Self::from_tracks(ticks_per_beat, &tracks))
    }

    /// Linearizes tracks: times every channel message by the tempo map of the
    /// first track and merges the tracks by time, the earlier track first
    /// where two events are due together.
    pub fn from_tracks(ticks_per_beat: u16, tracks: &Vec<Vec<TrackEvent>>) -> (file: Self)
        ensures
            file.holds(ticks_per_beat, track_views(tracks@)),
            crate::midifile_order::sorted_by_time(file@),
    {
        let changes: Vec<TempoChange> = if tracks.len() == 0 {
            Vec::new()
        } else {
            build_tempo_map(&tracks[0])
        };
        let ghost all = track_views(tracks@);
        assert(changes@ == file_tempo_map(all));
        let mut queues: Vec<VecDeque<MidiEvent>> = Vec::new();
        while queues.len() < tracks.len()
            invariant
                queues.len() <= tracks.len(),
                all == track_views(tracks@),
                changes@ == file_tempo_map(all),
                tempo_map_within(changes@, tick_limit()),
                forall|t: int|
                    0 <= t < queues.len() ==> (#[trigger] queues[t])@ == timed_events(
                        all[t],
                        changes@,
                        all[t].len() as int,
                    ),
            decreases tracks.len() - queues.len(),
        {
            let timed = time_track(&tracks[queues.len()], &changes);
            queues.push(timed);
        }
        assert(queue_views(queues@) =~= Seq::new(
            all.len(),
            |i: int| timed_events(all[i], file_tempo_map(all), all[i].len() as int),
        ));
        let events = merge_tracks(queues);
        proof {
            assert forall|t: int| 0 <= t < all.len() implies (#[trigger] all[t]).len()
                <= 0xFFFF_FFFF_FFFF_FFFF by {
                assert(all[t] == tracks@[t]@);
                assert(tracks@[t]@.len() == tracks@[t].len());
            }
            crate::midifile_order::lemma_linearized_sorted(all);
        }
        MidiFile { events, ticks_per_beat }
    }

    /// The ticks that the file counts in a beat.
    pub fn ticks_per_beat(&self) -> (ticks: u16)
        ensures
            ticks == self.ticks_per_beat_view(),
    {
        self.ticks_per_beat
    }

    /// The number of events.
    pub fn len(&self) -> (count: usize)
        ensures
            count == self@.len(),
    {
        self.events.len()
    }

    /// The event at `index`, counted in the order in which they are due.
    pub fn event(&self, index: usize) -> (event: MidiEvent)
        requires
            index < self@.len(),
        ensures
            event == self@[index as int],
    {
        self.events[index]
    }

    /// The time of the last event, in microsecond-ticks.
    pub fn get_length(&self) -> (time: u128)
        requires
            self@.len() > 0,
        ensures
            time == self@.last().time,
    {
        self.events[self.events.len() - 1].time
    }
}

} // verus!

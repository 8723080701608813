//! Playing a MIDI file: which events are due after how many samples.

use crate::midifile::{MidiEvent, MidiFile};
use crate::synthesizer::{NoteRequest, Synthesizer};
use vstd::prelude::*;

verus! {

/// Plays a MIDI file on a synthesizer, one sample at a time.
pub struct MidiFileSequencer {
    synthesizer: Synthesizer,
    midi_file: MidiFile,
    /// The number of samples made so far.
    current_time: u64,
    /// The number of events passed on so far.
    msg_index: usize,
}

/// An event at `time`, in microsecond-ticks, is due after `now` samples: its
/// time in seconds, `time / (1000000 * ticks_per_beat)`, is not beyond
/// `now / sample_rate`.
pub open spec fn is_due(time: int, now: int, ticks_per_beat: int, sample_rate: int) -> bool {
    time * sample_rate <= now * ticks_per_beat * 1_000_000
}

fn check_due(time: u128, now: u64, ticks_per_beat: u16, sample_rate: i32) -> (due: bool)
    requires
        0 < sample_rate,
    ensures
        due == is_due(time as int, now as int, ticks_per_beat as int, sample_rate as int),
{
    let rate: u128 = sample_rate as u128;
    assert(now * ticks_per_beat * 1_000_000 <= 0xFFFF_FFFF_FFFF_FFFF * 0xFFFF * 1_000_000)
        by (nonlinear_arith)
        requires
            0 <= now <= 0xFFFF_FFFF_FFFF_FFFF,
            0 <= ticks_per_beat <= 0xFFFF,
    ;
    assert(0 <= now * ticks_per_beat) by (nonlinear_arith)
        requires
            0 <= now,
            0 <= ticks_per_beat,
    ;
    let limit: u128 = (now as u128) * (ticks_per_beat as u128) * 1_000_000;
    if time > u128::MAX / rate {
        assert(time * sample_rate > limit) by (nonlinear_arith)
            requires
                time > u128::MAX / (sample_rate as u128),
                0 < sample_rate,
                limit <= 0xFFFF_FFFF_FFFF_FFFF * 0xFFFF * 1_000_000,
                time >= 0,
        {
            assert(time >= u128::MAX / (sample_rate as u128) + 1);
            assert((u128::MAX / (sample_rate as u128) + 1) * sample_rate > u128::MAX);
        }
        false
    } else {
        assert(time * rate <= u128::MAX) by (nonlinear_arith)
            requires
                time <= u128::MAX / rate,
                rate > 0,
        ;
        time * rate <= limit
    }
}

impl MidiFileSequencer {
    /// The synthesizer that is played on.
    pub closed spec fn synth(&self) -> Synthesizer {
        self.synthesizer
    }

    /// The events of the file.
    pub closed spec fn events(&self) -> Seq<MidiEvent> {
        self.midi_file@
    }

    /// The ticks that the file counts in a beat.
    pub closed spec fn ticks_per_beat(&self) -> u16 {
        self.midi_file.ticks_per_beat_view()
    }

    /// The number of samples made so far.
    pub closed spec fn now(&self) -> u64 {
        self.current_time
    }

    /// The number of events passed on so far.
    pub closed spec fn passed(&self) -> int {
        self.msg_index as int
    }

    /// The synthesizer is in order, its sample rate is above 0, and no more
    /// events were passed on than there are.
    pub open spec fn wf(&self) -> bool {
        &&& self.synth().wf()
        &&& self.synth().settings().sample_rate > 0
        &&& 0 <= self.passed() <= self.events().len()
    }

    /// The next event is due.
    pub open spec fn next_is_due(&self) -> bool {
        self.passed() < self.events().len() && is_due(
            self.events()[self.passed()].time as int,
            self.now() as int,
            self.ticks_per_beat() as int,
            self.synth().settings().sample_rate as int,
        )
    }

    /// Makes a sequencer that plays a file from its start on a synthesizer,
    /// which is reset.
    pub fn new(synthesizer: Synthesizer, midi_file: MidiFile) -> (sequencer: Self)
        requires
            synthesizer.wf(),
            synthesizer.settings().sample_rate > 0,
        ensures
            sequencer.wf(),
            sequencer.events() == midi_file@,
            sequencer.ticks_per_beat() == midi_file.ticks_per_beat_view(),
            sequencer.now() == 0,
            sequencer.passed() == 0,
            synthesizer.resets_to(&sequencer.synth()),
    {
        let mut synthesizer = synthesizer;
        synthesizer.reset();
        MidiFileSequencer { synthesizer, midi_file, current_time: 0, msg_index: 0 }
    }

    /// Plays another file from its start; the synthesizer is reset.
    pub fn play(&mut self, midi_file: MidiFile)
        requires
            old(self).wf(),
        ensures
            final(self).wf(),
            final(self).events() == midi_file@,
            final(self).ticks_per_beat() == midi_file.ticks_per_beat_view(),
            final(self).now() == 0,
            final(self).passed() == 0,
            old(self).synth().resets_to(&final(self).synth()),
    {
        self.midi_file = midi_file;
        self.current_time = 0;
        self.msg_index = 0;
        self.synthesizer.reset();
    }

    /// Stops playing: resets the synthesizer.
    pub fn stop(&mut self)
        requires
            old(self).wf(),
        ensures
            final(self).wf(),
            final(self).events() == old(self).events(),
            final(self).ticks_per_beat() == old(self).ticks_per_beat(),
            final(self).now() == old(self).now(),
            final(self).passed() == old(self).passed(),
            old(self).synth().resets_to(&final(self).synth()),
    {
        self.synthesizer.reset();
    }

    /// Passes the next event on to the synthesizer if it is due.  Gives
    /// whether it was, and the request that a note-on came back with.
    pub fn process_event(&mut self) -> (outcome: (bool, Option<NoteRequest>))
        requires
            old(self).wf(),
        ensures
            final(self).wf(),
            final(self).events() == old(self).events(),
            final(self).ticks_per_beat() == old(self).ticks_per_beat(),
            final(self).now() == old(self).now(),
            outcome.0 == old(self).next_is_due(),
            outcome.0 ==> final(self).passed() == old(self).passed() + 1 && old(self).synth().dispatched(
                &final(self).synth(),
                old(self).events()[old(self).passed()].ch,
                old(self).events()[old(self).passed()].msg,
                outcome.1,
            ),
            !outcome.0 ==> final(self).passed() == old(self).passed() && final(self).synth()
                == old(self).synth() && outcome.1 is None,
    {
        if self.msg_index >= self.midi_file.len() {
            return (false, None);
        }
        let event = self.midi_file.event(self.msg_index);
        if !check_due(
            event.time,
            self.current_time,
            self.midi_file.ticks_per_beat(),
            self.synthesizer.sample_rate(),
        ) {
            return (false, None);
        }
        let request = self.synthesizer.process_midi_message(event.ch, event.msg);
        self.msg_index = self.msg_index + 1;
        (true, request)
    }

    /// Counts one more sample as made.
    pub fn tick(&mut self)
        requires
            old(self).wf(),
        ensures
            final(self).wf(),
            final(self).events() == old(self).events(),
            final(self).ticks_per_beat() == old(self).ticks_per_beat(),
            final(self).passed() == old(self).passed(),
            final(self).synth() == old(self).synth(),
            final(self).now() == if old(self).now() < u64::MAX {
                (old(self).now() + 1) as u64
            } else {
                old(self).now()
            },
    {
        if self.current_time < u64::MAX {
            self.current_time = self.current_time + 1;
        }
    }

    /// The synthesizer, to make the samples with.
    pub fn synthesizer_mut(&mut self) -> (synthesizer: &mut Synthesizer)
        ensures
            *synthesizer == old(self).synth(),
            final(self).synth() == *final(synthesizer),
            final(self).events() == old(self).events(),
            final(self).ticks_per_beat() == old(self).ticks_per_beat(),
            final(self).now() == old(self).now(),
            final(self).passed() == old(self).passed(),
    {
        &mut self.synthesizer
    }

    /// The synthesizer that is played on.
    pub fn get_synthesizer(&self) -> (synthesizer: &Synthesizer)
        ensures
            *synthesizer == self.synth(),
    {
        &self.synthesizer
    }

    /// The file that is played.
    pub fn get_midi_file(&self) -> (file: &MidiFile)
        ensures
            file@ == self.events(),
            file.ticks_per_beat_view() == self.ticks_per_beat(),
    {
        &self.midi_file
    }

    /// The number of samples made so far.
    pub fn get_position(&self) -> (samples: u64)
        ensures
            samples == self.now(),
    {
        self.current_time
    }

    /// Whether every event was passed on.
    pub fn end_of_sequence(&self) -> (ended: bool)
        ensures
            ended == (self.passed() == self.events().len()),
    {
        self.msg_index == self.midi_file.len()
    }
}

} // verus!

//! A voice: one sounding note, from its note-on to its end.

use crate::channel::Channel;
use crate::generator_type;
use crate::modulation_envelope::ModulationEnvelope;
use crate::oscillator::Oscillator;
use crate::region_pair::RegionPair;
use crate::volume_envelope::{reached_from, VolumeEnvelope};
use crate::EnvelopeStage;
use vstd::prelude::*;

verus! {

/// Where a voice stands between its note-on and its end.
#[derive(Clone, Copy, Debug, PartialEq, Eq, Structural)]
pub enum VoiceState {
    Playing,
    ReleaseRequested,
    Released,
}

/// What the caller has worked out for a new note: whether the note can be
/// heard at all, and the lengths of the envelope stages in samples.
#[derive(Clone, Copy, Debug)]
pub struct NoteTiming {
    /// The gain of the note reaches what can be heard.
    pub gain_audible: bool,
    pub volume_delay: u32,
    pub volume_attack: u32,
    pub volume_hold: u32,
    pub modulation_delay: u32,
    pub modulation_attack: u32,
    pub modulation_hold: u32,
    pub modulation_decay: u32,
    pub modulation_release: u32,
}

/// A note that is sounding: everything about it that is decided in whole
/// numbers.
#[derive(Clone, Copy, Debug)]
pub struct Voice {
    /// The place that the voice keeps in its pool, whatever its position.
    pub slot: usize,
    /// How many notes the pool had started before the note of this voice.
    pub started_at: u64,
    pub vol_env: VolumeEnvelope,
    pub mod_env: ModulationEnvelope,
    pub oscillator: Oscillator,
    pub channel: i32,
    pub key: i32,
    pub velocity: i32,
    pub exclusive_class: i32,
    /// The gain of the note reaches what can be heard; cleared to silence the
    /// voice at once.
    pub gain_audible: bool,
    /// The filter follows the modulation.
    pub dynamic_cutoff: bool,
    /// The volume follows the modulation LFO.
    pub dynamic_volume: bool,
    /// In tenths of a percent, between -500 and 500.
    pub instrument_pan: i32,
    /// In tenths of a percent.
    pub instrument_reverb: i32,
    /// In tenths of a percent.
    pub instrument_chorus: i32,
    pub voice_state: VoiceState,
    /// The number of samples played.
    pub voice_length: usize,
    /// The voice can be heard in the sample that is being made.
    pub audible: bool,
    /// The step of the sample position for the sample that is being made.
    pub pitch_ratio_fp: i64,
    /// The sample as the oscillator gave it, in 1/2^24 of a sample step.
    pub sample: i64,
}

/// `value` kept between `low` and `high`.
pub open spec fn clamped(value: int, low: int, high: int) -> int {
    if value < low {
        low
    } else if value > high {
        high
    } else {
        value
    }
}

impl Voice {
    /// The voice after a note-on.
    pub open spec fn started(
        self,
        region: RegionPair,
        channel: i32,
        key: i32,
        velocity: i32,
        timing: NoteTiming,
    ) -> Voice {
        Voice {
            slot: self.slot,
            started_at: self.started_at,
            vol_env: VolumeEnvelope::started(
                timing.volume_delay,
                timing.volume_attack,
                timing.volume_hold,
            ),
            mod_env: ModulationEnvelope::started(
                timing.modulation_delay,
                timing.modulation_attack,
                timing.modulation_hold,
                timing.modulation_decay,
                timing.modulation_release,
            ),
            oscillator: Oscillator {
                loop_mode: region.instrument.sample_modes,
                sample_sample_rate: region.instrument.sample_sample_rate,
                start: region.instrument.sample_start,
                end: region.instrument.sample_end,
                start_loop: region.instrument.sample_start_loop,
                end_loop: region.instrument.sample_end_loop,
                root_key: region.instrument.root_key,
                fine_tune: region.fine_tune() as i64,
                looping: region.instrument.sample_modes != crate::LoopMode::NoLoop,
                position_fp: (region.instrument.sample_start * crate::oscillator::FRAC_UNIT) as i64,
            },
            channel,
            key,
            velocity,
            exclusive_class: region.instrument.exclusive_class,
            gain_audible: velocity > 0 && timing.gain_audible,
            dynamic_cutoff: region.effective(
                generator_type::MODULATION_LFO_TO_FILTER_CUTOFF_FREQUENCY as int,
            ) != 0 || region.effective(
                generator_type::MODULATION_ENVELOPE_TO_FILTER_CUTOFF_FREQUENCY as int,
            ) != 0,
            dynamic_volume: region.effective(generator_type::MODULATION_LFO_TO_VOLUME as int) > 0,
            instrument_pan: clamped(region.effective(generator_type::PAN as int), -500, 500) as i32,
            instrument_reverb: region.effective(generator_type::REVERB_EFFECTS_SEND as int) as i32,
            instrument_chorus: region.effective(generator_type::CHORUS_EFFECTS_SEND as int) as i32,
            voice_state: VoiceState::Playing,
            voice_length: 0,
            audible: velocity > 0 && timing.gain_audible,
            pitch_ratio_fp: 0,
            sample: 0,
        }
    }

    /// The voice is to be released now: its release was requested, it has
    /// played for the least length, and the pedal does not hold it.
    pub open spec fn release_due(self, hold_pedal: bool, minimum_length: usize) -> bool {
        self.voice_length >= minimum_length && self.voice_state == VoiceState::ReleaseRequested
            && !hold_pedal
    }

    /// The voice with its envelopes and its oscillator released, where that
    /// is due.
    pub open spec fn released_if_necessary(self, hold_pedal: bool, minimum_length: usize) -> Voice {
        if self.release_due(hold_pedal, minimum_length) {
            Voice {
                vol_env: VolumeEnvelope {
                    stage: EnvelopeStage::RELEASE,
                    release_start_time: self.vol_env.current_time,
                    ..self.vol_env
                },
                mod_env: self.mod_env.released(),
                oscillator: Oscillator {
                    looping: self.oscillator.looping && self.oscillator.loop_mode
                        != crate::LoopMode::LoopUntilNoteOff,
                    ..self.oscillator
                },
                voice_state: VoiceState::Released,
                ..self
            }
        } else {
            self
        }
    }

    /// The voice at the start of the next sample: silenced for good where
    /// its gain cannot be heard, else released where that is due and with
    /// both envelopes one sample on.
    pub open spec fn advanced(self, hold_pedal: bool, minimum_length: usize) -> Voice {
        if !self.gain_audible {
            Voice { audible: false, ..self }
        } else {
            let released = self.released_if_necessary(hold_pedal, minimum_length);
            Voice {
                vol_env: released.vol_env.stepped(),
                mod_env: released.mod_env.stepped(),
                audible: true,
                ..released
            }
        }
    }

    /// The level of the volume envelope can end the voice: the envelope is
    /// in its decay or in its release.
    pub open spec fn level_counts(self) -> bool {
        self.vol_env.stage == EnvelopeStage::DECAY || self.vol_env.stage == EnvelopeStage::RELEASE
    }

    /// The voice with what the caller has worked out for this sample: the
    /// step of its sample position, and whether the level of its volume
    /// envelope can be heard.  A level that cannot be heard ends the voice
    /// in the decay and in the release of the envelope, and in no other
    /// stage.
    pub open spec fn driven(self, level_audible: bool, pitch_ratio_fp: i64) -> Voice {
        Voice {
            audible: self.audible && (level_audible || !self.level_counts()),
            pitch_ratio_fp,
            ..self
        }
    }

    /// The voice goes on after this sample: it can be heard and its
    /// oscillator has a sample to give.
    pub open spec fn survives(self, data: Seq<i16>) -> bool {
        self.audible && self.oscillator.in_reach(data.len() as int)
    }

    /// The voice after the sample was made, where it goes on.
    pub open spec fn processed(self, data: Seq<i16>) -> Voice {
        Voice {
            oscillator: Oscillator {
                position_fp: crate::oscillator::saturated(
                    self.oscillator.wrapped_position() + self.pitch_ratio_fp,
                ),
                ..self.oscillator
            },
            sample: self.oscillator.interpolated(data) as i64,
            voice_length: if self.voice_length < usize::MAX {
                (self.voice_length + 1) as usize
            } else {
                self.voice_length
            },
            ..self
        }
    }

    /// The voice after its note was let go.
    pub open spec fn ended(self) -> Voice {
        Voice {
            voice_state: if self.voice_state == VoiceState::Playing {
                VoiceState::ReleaseRequested
            } else {
                self.voice_state
            },
            ..self
        }
    }

    /// The voice silenced.
    pub open spec fn killed(self) -> Voice {
        Voice { gain_audible: false, ..self }
    }

    /// `self` is to be stolen rather than `other`: it weighs less; or the
    /// same, and has played longer; or that too is the same, and its note
    /// was started earlier.
    pub open spec fn goes_before(self, other: Voice) -> bool {
        self.priority() < other.priority() || (self.priority() == other.priority() && (
        self.voice_length > other.voice_length || (self.voice_length == other.voice_length
            && self.started_at < other.started_at)))
    }

    /// The weight of the voice when one has to be stolen: 0 where it cannot
    /// be heard, else that of the stage of its volume envelope.
    pub open spec fn priority(self) -> int {
        if !self.gain_audible {
            0
        } else {
            5 - self.vol_env.stage.rank()
        }
    }

    /// The voice that rests in `slot` before any note: it cannot be heard,
    /// and everything about it is at zero.
    pub open spec fn at_rest(slot: usize) -> Voice {
        Voice {
            slot,
            started_at: 0,
            vol_env: VolumeEnvelope {
                attack_start_time: 0,
                hold_start_time: 0,
                decay_start_time: 0,
                release_start_time: 0,
                stage: EnvelopeStage::DELAY,
                current_time: 0,
            },
            mod_env: ModulationEnvelope {
                attack_start_time: 0,
                hold_start_time: 0,
                decay_start_time: 0,
                decay_end_time: 0,
                release_end_time: 0,
                stage: EnvelopeStage::DELAY,
                current_time: 0,
            },
            oscillator: Oscillator {
                loop_mode: crate::LoopMode::NoLoop,
                sample_sample_rate: 0,
                start: 0,
                end: 0,
                start_loop: 0,
                end_loop: 0,
                root_key: 0,
                fine_tune: 0,
                looping: false,
                position_fp: 0,
            },
            channel: 0,
            key: 0,
            velocity: 0,
            exclusive_class: 0,
            gain_audible: false,
            dynamic_cutoff: false,
            dynamic_volume: false,
            instrument_pan: 0,
            instrument_reverb: 0,
            instrument_chorus: 0,
            voice_state: VoiceState::Playing,
            voice_length: 0,
            audible: false,
            pitch_ratio_fp: 0,
            sample: 0,
        }
    }

    /// A voice at rest in `slot`.
    pub fn new(slot: usize) -> (voice: Self)
        ensures
            voice == Self::at_rest(slot),
    {
        Voice {
            slot,
            started_at: 0,
            vol_env: VolumeEnvelope::new(),
            mod_env: ModulationEnvelope::new(),
            oscillator: Oscillator::new(),
            channel: 0,
            key: 0,
            velocity: 0,
            exclusive_class: 0,
            gain_audible: false,
            dynamic_cutoff: false,
            dynamic_volume: false,
            instrument_pan: 0,
            instrument_reverb: 0,
            instrument_chorus: 0,
            voice_state: VoiceState::Playing,
            voice_length: 0,
            audible: false,
            pitch_ratio_fp: 0,
            sample: 0,
        }
    }

    /// Starts a note: takes the parameters of the region, starts envelopes
    /// and oscillator, and begins to count the length from 0.
    pub fn start(
        &mut self,
        region: &RegionPair,
        channel: i32,
        key: i32,
        velocity: i32,
        timing: &NoteTiming,
    )
        ensures
            *final(self) == old(self).started(*region, channel, key, velocity, *timing),
    {
        self.channel = channel;
        self.key = key;
        self.velocity = velocity;
        self.exclusive_class = region.instrument.exclusive_class;
        self.gain_audible = velocity > 0 && timing.gain_audible;
        let lfo_to_cutoff: i32 = region.gs(
            generator_type::MODULATION_LFO_TO_FILTER_CUTOFF_FREQUENCY,
        );
        let env_to_cutoff: i32 = region.gs(
            generator_type::MODULATION_ENVELOPE_TO_FILTER_CUTOFF_FREQUENCY,
        );
        self.dynamic_cutoff = lfo_to_cutoff != 0 || env_to_cutoff != 0;
        self.dynamic_volume = region.gs(generator_type::MODULATION_LFO_TO_VOLUME) > 0;
        let pan: i32 = region.gs(generator_type::PAN);
        self.instrument_pan = if pan < -500 {
            -500
        } else if pan > 500 {
            500
        } else {
            pan
        };
        self.instrument_reverb = region.gs(generator_type::REVERB_EFFECTS_SEND);
        self.instrument_chorus = region.gs(generator_type::CHORUS_EFFECTS_SEND);
        self.vol_env.start(timing.volume_delay, timing.volume_attack, timing.volume_hold);
        self.mod_env.start(
            timing.modulation_delay,
            timing.modulation_attack,
            timing.modulation_hold,
            timing.modulation_decay,
            timing.modulation_release,
        );
        let fine_tune: i64 = region.get_fine_tune();
        self.oscillator.start(
            region.instrument.sample_modes,
            region.instrument.sample_sample_rate,
            region.instrument.sample_start,
            region.instrument.sample_end,
            region.instrument.sample_start_loop,
            region.instrument.sample_end_loop,
            region.instrument.root_key,
            fine_tune,
        );
        self.voice_state = VoiceState::Playing;
        self.voice_length = 0;
        self.audible = self.gain_audible;
        self.pitch_ratio_fp = 0;
        self.sample = 0;
    }

    /// The note was let go: the voice is to be released as soon as it may.
    pub fn end(&mut self)
        ensures
            *final(self) == old(self).ended(),
    {
        if self.voice_state == VoiceState::Playing {
            self.voice_state = VoiceState::ReleaseRequested;
        }
    }

    /// Silences the voice at once.
    pub fn kill(&mut self)
        ensures
            *final(self) == old(self).killed(),
    {
        self.gain_audible = false;
    }

    /// Releases envelopes and oscillator where the release is due.
    pub fn release_if_necessary(&mut self, channel_info: &Channel, minimum_length: usize)
        ensures
            *final(self) == old(self).released_if_necessary(
                channel_info.hold_pedal,
                minimum_length,
            ),
    {
        if self.voice_length < minimum_length {
            return ;
        }
        if self.voice_state == VoiceState::ReleaseRequested && !channel_info.get_hold_pedal() {
            self.vol_env.release();
            self.mod_env.release();
            self.oscillator.release();
            self.voice_state = VoiceState::Released;
        }
    }

    /// Begins the next sample.  Gives `false` where the voice is silent for
    /// good.
    pub fn advance(&mut self, channel_info: &Channel, minimum_length: usize) -> (running: bool)
        ensures
            *final(self) == old(self).advanced(channel_info.hold_pedal, minimum_length),
            running == old(self).gain_audible,
    {
        if !self.gain_audible {
            self.audible = false;
            return false;
        }
        self.release_if_necessary(channel_info, minimum_length);
        self.vol_env.render();
        self.mod_env.render();
        self.audible = true;
        true
    }

    /// Takes what the caller has worked out for this sample: whether the
    /// level of the volume envelope can be heard, which counts in the decay
    /// and in the release alone, and the step of the sample position.
    pub fn drive(&mut self, level_audible: bool, pitch_ratio_fp: i64)
        ensures
            *final(self) == old(self).driven(level_audible, pitch_ratio_fp),
    {
        let level_counts = match self.vol_env.stage {
            EnvelopeStage::DECAY => true,
            EnvelopeStage::RELEASE => true,
            _ => false,
        };
        self.audible = self.audible && (level_audible || !level_counts);
        self.pitch_ratio_fp = pitch_ratio_fp;
    }

    /// Makes the sample.  Gives `false` where the voice has come to its end:
    /// it cannot be heard any more, or the oscillator has run out.
    pub fn process(&mut self, data: &[i16]) -> (running: bool)
        ensures
            running == old(self).survives(data@),
            running ==> *final(self) == old(self).processed(data@),
            !running ==> *final(self) == *old(self),
    {
        if !self.audible {
            return false;
        }
        match self.oscillator.render(data, self.pitch_ratio_fp) {
            None => false,
            Some(sample) => {
                self.sample = sample;
                if self.voice_length < usize::MAX {
                    self.voice_length = self.voice_length + 1;
                }
                true
            },
        }
    }

    /// Whether this voice is to be stolen rather than `other`.
    pub fn steals_before(&self, other: &Voice) -> (before: bool)
        ensures
            before == self.goes_before(*other),
    {
        let mine: u8 = self.get_priority();
        let theirs: u8 = other.get_priority();
        mine < theirs || (mine == theirs && (self.voice_length > other.voice_length || (
        self.voice_length == other.voice_length && self.started_at < other.started_at)))
    }

    /// The weight of the voice when one has to be stolen.
    pub fn get_priority(&self) -> (priority: u8)
        ensures
            priority == self.priority(),
    {
        if !self.gain_audible {
            0
        } else {
            self.vol_env.get_priority()
        }
    }
}

/// A voice whose gain cannot be heard does not outlast the sample that is
/// begun next, whatever the caller works out for it; and neither does a voice
/// whose volume envelope is in its decay or its release at a level that
/// cannot be heard.
pub proof fn lemma_silent_voice_ends(
    voice: Voice,
    hold_pedal: bool,
    minimum_length: usize,
    level_audible: bool,
    pitch_ratio_fp: i64,
    data: Seq<i16>,
)
    requires
        !voice.gain_audible || (!level_audible && voice.advanced(
            hold_pedal,
            minimum_length,
        ).level_counts()),
    ensures
        !voice.advanced(hold_pedal, minimum_length).driven(level_audible, pitch_ratio_fp).survives(
            data,
        ),
{
}

/// While its volume envelope is in its delay, its attack or its hold, a
/// voice is not ended by the level of the envelope, whatever that is: it
/// goes on as long as its gain can be heard and its oscillator has a sample
/// to give.
pub proof fn lemma_level_ends_no_voice_before_decay(
    voice: Voice,
    hold_pedal: bool,
    minimum_length: usize,
    level_audible: bool,
    pitch_ratio_fp: i64,
    data: Seq<i16>,
)
    requires
        voice.gain_audible,
        !voice.advanced(hold_pedal, minimum_length).level_counts(),
    ensures
        voice.advanced(hold_pedal, minimum_length).driven(level_audible, pitch_ratio_fp).survives(
            data,
        ) == voice.advanced(hold_pedal, minimum_length).oscillator.in_reach(data.len() as int),
{
}

/// A silenced voice weighs nothing, and so weighs no more than any other
/// voice when one has to be stolen.
pub proof fn lemma_killed_voice_weighs_least(voice: Voice, other: Voice)
    ensures
        voice.killed().priority() == 0,
        voice.killed().priority() <= other.priority(),
{
}

/// The envelopes of a voice never go back a stage: not when the next sample
/// is begun, whether the voice is released then or not, and not when the
/// sample is made.
pub proof fn lemma_voice_stages_never_decrease(
    voice: Voice,
    hold_pedal: bool,
    minimum_length: usize,
    data: Seq<i16>,
)
    ensures
        reached_from(
            voice.vol_env.stage,
            voice.advanced(hold_pedal, minimum_length).vol_env.stage,
        ),
        reached_from(
            voice.mod_env.stage,
            voice.advanced(hold_pedal, minimum_length).mod_env.stage,
        ),
        voice.processed(data).vol_env.stage == voice.vol_env.stage,
        voice.processed(data).mod_env.stage == voice.mod_env.stage,
        voice.ended().vol_env.stage == voice.vol_env.stage,
        voice.killed().vol_env.stage == voice.vol_env.stage,
{
}

/// A voice that is released stays released, and a voice whose release was
/// requested is not taken for playing again: the state only moves from
/// playing to release requested to released.
pub proof fn lemma_voice_state_moves_forward(
    voice: Voice,
    hold_pedal: bool,
    minimum_length: usize,
    data: Seq<i16>,
)
    ensures
        state_rank(voice.voice_state) <= state_rank(voice.ended().voice_state),
        state_rank(voice.voice_state) <= state_rank(
            voice.advanced(hold_pedal, minimum_length).voice_state,
        ),
        voice.processed(data).voice_state == voice.voice_state,
        voice.voice_state == VoiceState::ReleaseRequested && hold_pedal ==> voice.advanced(
            hold_pedal,
            minimum_length,
        ).voice_state == VoiceState::ReleaseRequested,
{
}

/// The place of a state in the life of a voice.
pub open spec fn state_rank(state: VoiceState) -> int {
    match state {
        VoiceState::Playing => 0,
        VoiceState::ReleaseRequested => 1,
        VoiceState::Released => 2,
    }
}

} // verus!

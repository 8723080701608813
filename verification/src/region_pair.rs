//! The generators of a preset region and an instrument region, added up.

use crate::generator_type;
use crate::oscillator::View;
use crate::soundfont::{InstrumentRegion, PresetRegion};
use crate::LoopMode;
use vstd::prelude::*;
use vstd::view::View as _;

verus! {

/// A preset region together with an instrument region: the parameters that
/// a note is played with.
///
/// Every generator counts with the sum of what the two regions hold for it.
/// The accessors give these sums as they are, in the unit of the generator:
/// cents, timecents, tenths of a decibel, tenths of a percent.
pub struct RegionPair {
    pub preset: PresetRegion,
    pub instrument: InstrumentRegion,
    pub wave_data: View<i16>,
}

impl RegionPair {
    /// The value of generator `i`: what the preset region holds for it plus
    /// what the instrument region holds.
    pub open spec fn effective(&self, i: int) -> int {
        self.preset.gs[i] + self.instrument.gs[i]
    }

    /// The value of generator `i`.
    pub fn gs(&self, i: usize) -> (value: i32)
        requires
            i < 58,
        ensures
            value == self.effective(i as int),
    {
        self.preset.gs[i] as i32 + self.instrument.gs[i] as i32
    }

    /// How far the modulation LFO bends the pitch, in cents.
    pub fn get_modulation_lfo_to_pitch(&self) -> (value: i32)
        ensures
            value == self.effective(generator_type::MODULATION_LFO_TO_PITCH as int),
    {
        self.gs(generator_type::MODULATION_LFO_TO_PITCH)
    }

    /// How far the vibrato LFO bends the pitch, in cents.
    pub fn get_vibrato_lfo_to_pitch(&self) -> (value: i32)
        ensures
            value == self.effective(generator_type::VIBRATO_LFO_TO_PITCH as int),
    {
        self.gs(generator_type::VIBRATO_LFO_TO_PITCH)
    }

    /// How far the modulation envelope bends the pitch, in cents.
    pub fn get_modulation_envelope_to_pitch(&self) -> (value: i32)
        ensures
            value == self.effective(generator_type::MODULATION_ENVELOPE_TO_PITCH as int),
    {
        self.gs(generator_type::MODULATION_ENVELOPE_TO_PITCH)
    }

    /// The cutoff of the filter, in cents above 8.176 Hz.
    pub fn get_initial_filter_cutoff_frequency(&self) -> (value: i32)
        ensures
            value == self.effective(generator_type::INITIAL_FILTER_CUTOFF_FREQUENCY as int),
    {
        self.gs(generator_type::INITIAL_FILTER_CUTOFF_FREQUENCY)
    }

    /// The resonance of the filter, in tenths of a decibel.
    pub fn get_initial_filter_q(&self) -> (value: i32)
        ensures
            value == self.effective(generator_type::INITIAL_FILTER_Q as int),
    {
        self.gs(generator_type::INITIAL_FILTER_Q)
    }

    /// How far the modulation LFO moves the cutoff, in cents.
    pub fn get_modulation_lfo_to_filter_cutoff_frequency(&self) -> (value: i32)
        ensures
            value == self.effective(generator_type::MODULATION_LFO_TO_FILTER_CUTOFF_FREQUENCY as int),
    {
        self.gs(generator_type::MODULATION_LFO_TO_FILTER_CUTOFF_FREQUENCY)
    }

    /// How far the modulation envelope moves the cutoff, in cents.
    pub fn get_modulation_envelope_to_filter_cutoff_frequency(&self) -> (value: i32)
        ensures
            value == self.effective(generator_type::MODULATION_ENVELOPE_TO_FILTER_CUTOFF_FREQUENCY as int),
    {
        self.gs(generator_type::MODULATION_ENVELOPE_TO_FILTER_CUTOFF_FREQUENCY)
    }

    /// How far the modulation LFO moves the volume, in tenths of a decibel.
    pub fn get_modulation_lfo_to_volume(&self) -> (value: i32)
        ensures
            value == self.effective(generator_type::MODULATION_LFO_TO_VOLUME as int),
    {
        self.gs(generator_type::MODULATION_LFO_TO_VOLUME)
    }

    /// The share that goes to the chorus, in tenths of a percent.
    pub fn get_chorus_effects_send(&self) -> (value: i32)
        ensures
            value == self.effective(generator_type::CHORUS_EFFECTS_SEND as int),
    {
        self.gs(generator_type::CHORUS_EFFECTS_SEND)
    }

    /// The share that goes to the reverb, in tenths of a percent.
    pub fn get_reverb_effects_send(&self) -> (value: i32)
        ensures
            value == self.effective(generator_type::REVERB_EFFECTS_SEND as int),
    {
        self.gs(generator_type::REVERB_EFFECTS_SEND)
    }

    /// The position between left and right, in tenths of a percent.
    pub fn get_pan(&self) -> (value: i32)
        ensures
            value == self.effective(generator_type::PAN as int),
    {
        self.gs(generator_type::PAN)
    }

    /// The delay of the modulation LFO, in timecents.
    pub fn get_delay_modulation_lfo(&self) -> (value: i32)
        ensures
            value == self.effective(generator_type::DELAY_MODULATION_LFO as int),
    {
        self.gs(generator_type::DELAY_MODULATION_LFO)
    }

    /// The frequency of the modulation LFO, in cents above 8.176 Hz.
    pub fn get_frequency_modulation_lfo(&self) -> (value: i32)
        ensures
            value == self.effective(generator_type::FREQUENCY_MODULATION_LFO as int),
    {
        self.gs(generator_type::FREQUENCY_MODULATION_LFO)
    }

    /// The delay of the vibrato LFO, in timecents.
    pub fn get_delay_vibrato_lfo(&self) -> (value: i32)
        ensures
            value == self.effective(generator_type::DELAY_VIBRATO_LFO as int),
    {
        self.gs(generator_type::DELAY_VIBRATO_LFO)
    }

    /// The frequency of the vibrato LFO, in cents above 8.176 Hz.
    pub fn get_frequency_vibrato_lfo(&self) -> (value: i32)
        ensures
            value == self.effective(generator_type::FREQUENCY_VIBRATO_LFO as int),
    {
        self.gs(generator_type::FREQUENCY_VIBRATO_LFO)
    }

    /// The delay of the modulation envelope, in timecents.
    pub fn get_delay_modulation_envelope(&self) -> (value: i32)
        ensures
            value == self.effective(generator_type::DELAY_MODULATION_ENVELOPE as int),
    {
        self.gs(generator_type::DELAY_MODULATION_ENVELOPE)
    }

    /// The attack of the modulation envelope, in timecents.
    pub fn get_attack_modulation_envelope(&self) -> (value: i32)
        ensures
            value == self.effective(generator_type::ATTACK_MODULATION_ENVELOPE as int),
    {
        self.gs(generator_type::ATTACK_MODULATION_ENVELOPE)
    }

    /// The hold of the modulation envelope, in timecents.
    pub fn get_hold_modulation_envelope(&self) -> (value: i32)
        ensures
            value == self.effective(generator_type::HOLD_MODULATION_ENVELOPE as int),
    {
        self.gs(generator_type::HOLD_MODULATION_ENVELOPE)
    }

    /// The decay of the modulation envelope, in timecents.
    pub fn get_decay_modulation_envelope(&self) -> (value: i32)
        ensures
            value == self.effective(generator_type::DECAY_MODULATION_ENVELOPE as int),
    {
        self.gs(generator_type::DECAY_MODULATION_ENVELOPE)
    }

    /// How far the modulation envelope falls to its sustain, in tenths of a percent.
    pub fn get_sustain_modulation_envelope(&self) -> (value: i32)
        ensures
            value == self.effective(generator_type::SUSTAIN_MODULATION_ENVELOPE as int),
    {
        self.gs(generator_type::SUSTAIN_MODULATION_ENVELOPE)
    }

    /// The release of the modulation envelope, in timecents.
    pub fn get_release_modulation_envelope(&self) -> (value: i32)
        ensures
            value == self.effective(generator_type::RELEASE_MODULATION_ENVELOPE as int),
    {
        self.gs(generator_type::RELEASE_MODULATION_ENVELOPE)
    }

    /// By how many timecents each key below 60 lengthens the hold of the modulation envelope.
    pub fn get_key_number_to_modulation_envelope_hold(&self) -> (value: i32)
        ensures
            value == self.effective(generator_type::KEY_NUMBER_TO_MODULATION_ENVELOPE_HOLD as int),
    {
        self.gs(generator_type::KEY_NUMBER_TO_MODULATION_ENVELOPE_HOLD)
    }

    /// By how many timecents each key below 60 lengthens the decay of the modulation envelope.
    pub fn get_key_number_to_modulation_envelope_decay(&self) -> (value: i32)
        ensures
            value == self.effective(generator_type::KEY_NUMBER_TO_MODULATION_ENVELOPE_DECAY as int),
    {
        self.gs(generator_type::KEY_NUMBER_TO_MODULATION_ENVELOPE_DECAY)
    }

    /// The delay of the volume envelope, in timecents.
    pub fn get_delay_volume_envelope(&self) -> (value: i32)
        ensures
            value == self.effective(generator_type::DELAY_VOLUME_ENVELOPE as int),
    {
        self.gs(generator_type::DELAY_VOLUME_ENVELOPE)
    }

    /// The attack of the volume envelope, in timecents.
    pub fn get_attack_volume_envelope(&self) -> (value: i32)
        ensures
            value == self.effective(generator_type::ATTACK_VOLUME_ENVELOPE as int),
    {
        self.gs(generator_type::ATTACK_VOLUME_ENVELOPE)
    }

    /// The hold of the volume envelope, in timecents.
    pub fn get_hold_volume_envelope(&self) -> (value: i32)
        ensures
            value == self.effective(generator_type::HOLD_VOLUME_ENVELOPE as int),
    {
        self.gs(generator_type::HOLD_VOLUME_ENVELOPE)
    }

    /// The decay of the volume envelope, in timecents.
    pub fn get_decay_volume_envelope(&self) -> (value: i32)
        ensures
            value == self.effective(generator_type::DECAY_VOLUME_ENVELOPE as int),
    {
        self.gs(generator_type::DECAY_VOLUME_ENVELOPE)
    }

    /// How far the volume envelope falls to its sustain, in tenths of a decibel.
    pub fn get_sustain_volume_envelope(&self) -> (value: i32)
        ensures
            value == self.effective(generator_type::SUSTAIN_VOLUME_ENVELOPE as int),
    {
        self.gs(generator_type::SUSTAIN_VOLUME_ENVELOPE)
    }

    /// The release of the volume envelope, in timecents.
    pub fn get_release_volume_envelope(&self) -> (value: i32)
        ensures
            value == self.effective(generator_type::RELEASE_VOLUME_ENVELOPE as int),
    {
        self.gs(generator_type::RELEASE_VOLUME_ENVELOPE)
    }

    /// By how many timecents each key below 60 lengthens the hold of the volume envelope.
    pub fn get_key_number_to_volume_envelope_hold(&self) -> (value: i32)
        ensures
            value == self.effective(generator_type::KEY_NUMBER_TO_VOLUME_ENVELOPE_HOLD as int),
    {
        self.gs(generator_type::KEY_NUMBER_TO_VOLUME_ENVELOPE_HOLD)
    }

    /// By how many timecents each key below 60 lengthens the decay of the volume envelope.
    pub fn get_key_number_to_volume_envelope_decay(&self) -> (value: i32)
        ensures
            value == self.effective(generator_type::KEY_NUMBER_TO_VOLUME_ENVELOPE_DECAY as int),
    {
        self.gs(generator_type::KEY_NUMBER_TO_VOLUME_ENVELOPE_DECAY)
    }

    /// The attenuation of the note, in tenths of a decibel.
    pub fn get_initial_attenuation(&self) -> (value: i32)
        ensures
            value == self.effective(generator_type::INITIAL_ATTENUATION as int),
    {
        self.gs(generator_type::INITIAL_ATTENUATION)
    }

    /// The tuning in semitones.
    pub fn get_coarse_tune(&self) -> (value: i32)
        ensures
            value == self.effective(generator_type::COARSE_TUNE as int),
    {
        self.gs(generator_type::COARSE_TUNE)
    }

    /// The cents from one key to the next.
    pub fn get_scale_tuning(&self) -> (value: i32)
        ensures
            value == self.effective(generator_type::SCALE_TUNING as int),
    {
        self.gs(generator_type::SCALE_TUNING)
    }

    /// The rate at which the sample was recorded.
    pub fn sample_sample_rate(&self) -> (value: i32)
        ensures
            value == self.instrument.sample_sample_rate,
    {
        self.instrument.sample_sample_rate
    }

    /// Where the sample starts in the pool.
    pub fn get_sample_start(&self) -> (value: i32)
        ensures
            value == self.instrument.sample_start,
    {
        self.instrument.sample_start
    }

    /// Where the sample ends in the pool.
    pub fn get_sample_end(&self) -> (value: i32)
        ensures
            value == self.instrument.sample_end,
    {
        self.instrument.sample_end
    }

    /// Where the loop starts in the pool.
    pub fn get_sample_start_loop(&self) -> (value: i32)
        ensures
            value == self.instrument.sample_start_loop,
    {
        self.instrument.sample_start_loop
    }

    /// Where the loop ends in the pool.
    pub fn get_sample_end_loop(&self) -> (value: i32)
        ensures
            value == self.instrument.sample_end_loop,
    {
        self.instrument.sample_end_loop
    }

    /// The key at which the sample sounds at its own pitch.
    pub fn get_root_key(&self) -> (value: i32)
        ensures
            value == self.instrument.root_key,
    {
        self.instrument.root_key
    }

    /// How the sample loops.
    pub fn get_sample_modes(&self) -> (value: LoopMode)
        ensures
            value == self.instrument.sample_modes,
    {
        self.instrument.sample_modes
    }

    /// The class of notes that cut each other off.
    pub fn get_exclusive_class(&self) -> (value: i32)
        ensures
            value == self.instrument.exclusive_class,
    {
        self.instrument.exclusive_class
    }

    /// The fine tuning in cents: that of the generators plus the correction
    /// of the sample.
    pub open spec fn fine_tune(&self) -> int {
        self.effective(generator_type::FINE_TUNE as int) + self.instrument.sample_pitch_correction
    }

    /// The fine tuning in cents.
    pub fn get_fine_tune(&self) -> (value: i64)
        ensures
            value == self.fine_tune(),
    {
        self.gs(generator_type::FINE_TUNE) as i64 + self.instrument.sample_pitch_correction as i64
    }

    /// The window of the sample in the pool.
    pub fn get_wave_data(&self) -> (window: &View<i16>)
        ensures
            *window == self.wave_data,
    {
        &self.wave_data
    }

    /// The timecents by which a key changes the length of an envelope stage
    /// that grows by `cents` for each key below 60.
    pub fn key_number_to_timecents(cents: i32, key: i32) -> (timecents: i64)
        ensures
            timecents == cents * (60 - key),
    {
        assert(-0x8000_0000 * 0x8000_0100 <= cents * (60 - key) <= 0x8000_0000 * 0x8000_0100)
            by (nonlinear_arith)
            requires
                -0x8000_0000 <= cents <= 0x8000_0000,
                -0x8000_0100 <= 60 - key <= 0x8000_0100,
        ;
        (cents as i64) * (60 - key as i64)
    }
}

} // verus!

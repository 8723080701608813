//! The indices of the generators that a region holds.

use vstd::prelude::*;

verus! {

/// The number of generators in a region.
pub const COUNT: usize = 58;

pub const MODULATION_LFO_TO_PITCH: usize = 5;

pub const VIBRATO_LFO_TO_PITCH: usize = 6;

pub const MODULATION_ENVELOPE_TO_PITCH: usize = 7;

pub const INITIAL_FILTER_CUTOFF_FREQUENCY: usize = 8;

pub const INITIAL_FILTER_Q: usize = 9;

pub const MODULATION_LFO_TO_FILTER_CUTOFF_FREQUENCY: usize = 10;

pub const MODULATION_ENVELOPE_TO_FILTER_CUTOFF_FREQUENCY: usize = 11;

pub const MODULATION_LFO_TO_VOLUME: usize = 13;

pub const CHORUS_EFFECTS_SEND: usize = 15;

pub const REVERB_EFFECTS_SEND: usize = 16;

pub const PAN: usize = 17;

pub const DELAY_MODULATION_LFO: usize = 21;

pub const FREQUENCY_MODULATION_LFO: usize = 22;

pub const DELAY_VIBRATO_LFO: usize = 23;

pub const FREQUENCY_VIBRATO_LFO: usize = 24;

pub const DELAY_MODULATION_ENVELOPE: usize = 25;

pub const ATTACK_MODULATION_ENVELOPE: usize = 26;

pub const HOLD_MODULATION_ENVELOPE: usize = 27;

pub const DECAY_MODULATION_ENVELOPE: usize = 28;

pub const SUSTAIN_MODULATION_ENVELOPE: usize = 29;

pub const RELEASE_MODULATION_ENVELOPE: usize = 30;

pub const KEY_NUMBER_TO_MODULATION_ENVELOPE_HOLD: usize = 31;

pub const KEY_NUMBER_TO_MODULATION_ENVELOPE_DECAY: usize = 32;

pub const DELAY_VOLUME_ENVELOPE: usize = 33;

pub const ATTACK_VOLUME_ENVELOPE: usize = 34;

pub const HOLD_VOLUME_ENVELOPE: usize = 35;

pub const DECAY_VOLUME_ENVELOPE: usize = 36;

pub const SUSTAIN_VOLUME_ENVELOPE: usize = 37;

pub const RELEASE_VOLUME_ENVELOPE: usize = 38;

pub const KEY_NUMBER_TO_VOLUME_ENVELOPE_HOLD: usize = 39;

pub const KEY_NUMBER_TO_VOLUME_ENVELOPE_DECAY: usize = 40;

pub const INITIAL_ATTENUATION: usize = 48;

pub const COARSE_TUNE: usize = 51;

pub const FINE_TUNE: usize = 52;

pub const SCALE_TUNING: usize = 56;

pub const EXCLUSIVE_CLASS: usize = 57;

} // verus!

//! The integer core of a SoundFont wavetable synthesizer.
//!
//! Everything the engine decides is kept here in exact integer arithmetic and
//! proved against its contract: controller state, envelope staging, the
//! fixed-point sample cursor, the voice pool with its stealing rule, preset
//! lookup, the reading of SoundFont files and the linearization of Standard
//! MIDI Files.  Values that only exist as floating point (gains, filter
//! coefficients, envelope levels) are computed by the caller from the raw
//! integers this crate hands out.
//!
//! A sample is made in three steps.  The synthesizer begins it in every
//! voice; the caller works out for each voice whether the level of its volume
//! envelope can be heard and how far its sample position moves; the
//! synthesizer then reads the samples and frees the voices that have come to
//! their end.

use vstd::prelude::*;

pub mod binary_reader;
pub mod channel;
pub mod error;
pub mod generator_type;
pub mod midifile;
pub mod midifile_chunks;
pub mod midifile_order;
pub mod midifile_sequencer;
pub mod modulation_envelope;
pub mod oscillator;
pub mod region_pair;
pub mod reverb;
pub mod soundfont;
pub mod soundfont_file;
pub mod soundfont_info;
pub mod synthesizer;
pub mod synthesizer_settings;
pub mod voice;
pub mod voice_collection;
pub mod volume_envelope;

verus! {

/// The sample rate of the engine, in frames per second.
pub const SAMPLE_RATE: i32 = 44100;

/// The number of MIDI channels.
pub const CHANNELS: usize = 16;

/// Specifies how the sample loops during playback.
#[derive(Clone, Copy, Debug, PartialEq, Eq, Structural)]
pub enum LoopMode {
    /// The sample will be played without loop.
    NoLoop,
    /// The sample will loop continuously.
    Continuous,
    /// The sample will loop until the note stops.
    LoopUntilNoteOff,
}

/// The five stages of a DAHDSR envelope, in the order they are passed through.
#[derive(Clone, Copy, Debug, PartialEq, Eq, Structural)]
#[allow(clippy::upper_case_acronyms)]
pub enum EnvelopeStage {
    DELAY,
    ATTACK,
    HOLD,
    DECAY,
    RELEASE,
}

impl EnvelopeStage {
    /// Position of the stage in the order DELAY < ATTACK < HOLD < DECAY < RELEASE.
    pub open spec fn rank(self) -> int {
        match self {
            EnvelopeStage::DELAY => 0,
            EnvelopeStage::ATTACK => 1,
            EnvelopeStage::HOLD => 2,
            EnvelopeStage::DECAY => 3,
            EnvelopeStage::RELEASE => 4,
        }
    }

    /// The stage that follows `self`; RELEASE is followed by itself.
    pub open spec fn successor(self) -> EnvelopeStage {
        match self {
            EnvelopeStage::DELAY => EnvelopeStage::ATTACK,
            EnvelopeStage::ATTACK => EnvelopeStage::HOLD,
            EnvelopeStage::HOLD => EnvelopeStage::DECAY,
            EnvelopeStage::DECAY => EnvelopeStage::RELEASE,
            EnvelopeStage::RELEASE => EnvelopeStage::RELEASE,
        }
    }

    /// Moves to the following stage.
    pub fn next(&mut self)
        ensures
            *final(self) == old(self).successor(),
            final(self).rank() == if old(self).rank() < 4 { old(self).rank() + 1 } else { 4 },
    {
        *self = match *self {
            EnvelopeStage::DELAY => EnvelopeStage::ATTACK,
            EnvelopeStage::ATTACK => EnvelopeStage::HOLD,
            EnvelopeStage::HOLD => EnvelopeStage::DECAY,
            EnvelopeStage::DECAY => EnvelopeStage::RELEASE,
            EnvelopeStage::RELEASE => EnvelopeStage::RELEASE,
        };
    }

    /// The weight of a voice in this stage when a voice has to be stolen:
    /// 5 for DELAY down to 1 for RELEASE.
    pub fn get_priority(&self) -> (priority: u8)
        ensures
            priority == 5 - self.rank(),
    {
        match self {
            EnvelopeStage::DELAY => 5,
            EnvelopeStage::ATTACK => 4,
            EnvelopeStage::HOLD => 3,
            EnvelopeStage::DECAY => 2,
            EnvelopeStage::RELEASE => 1,
        }
    }
}

} // verus!

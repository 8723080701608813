//! The clock of the modulation envelope.

use crate::volume_envelope::{advance_stage, reached_from, stage_at};
use crate::EnvelopeStage;
use vstd::prelude::*;

verus! {

/// The clock of a modulation envelope.
///
/// Times are counted in samples.  The level that belongs to a stage and a
/// time is for the caller to compute; this type decides the stage.
#[derive(Clone, Copy, Debug)]
pub struct ModulationEnvelope {
    pub attack_start_time: u64,
    pub hold_start_time: u64,
    pub decay_start_time: u64,
    pub decay_end_time: u64,
    pub release_end_time: u64,
    pub stage: EnvelopeStage,
    pub current_time: u64,
}

impl ModulationEnvelope {
    /// The envelope that `start` sets up.
    pub open spec fn started(
        delay: u32,
        attack: u32,
        hold: u32,
        decay: u32,
        release: u32,
    ) -> ModulationEnvelope {
        ModulationEnvelope {
            attack_start_time: delay as u64,
            hold_start_time: (delay + attack) as u64,
            decay_start_time: (delay + attack + hold) as u64,
            decay_end_time: (delay + attack + hold + decay) as u64,
            release_end_time: release as u64,
            stage: stage_at(EnvelopeStage::DELAY, 0, delay as int, delay + attack, delay + attack + hold),
            current_time: 0,
        }
    }

    /// The envelope one sample later.
    pub open spec fn stepped(self) -> ModulationEnvelope {
        let time = if self.current_time < u64::MAX {
            (self.current_time + 1) as u64
        } else {
            self.current_time
        };
        ModulationEnvelope {
            current_time: time,
            stage: stage_at(
                self.stage,
                time as int,
                self.attack_start_time as int,
                self.hold_start_time as int,
                self.decay_start_time as int,
            ),
            ..self
        }
    }

    /// The envelope after its release: the end of the release lies its
    /// length after the current time, or at the largest time there is.
    pub open spec fn released(self) -> ModulationEnvelope {
        ModulationEnvelope {
            stage: EnvelopeStage::RELEASE,
            release_end_time: if self.release_end_time + self.current_time <= u64::MAX {
                (self.release_end_time + self.current_time) as u64
            } else {
                u64::MAX
            },
            ..self
        }
    }

    /// An envelope at rest.
    pub fn new() -> (envelope: Self)
        ensures
            envelope == (ModulationEnvelope {
                attack_start_time: 0,
                hold_start_time: 0,
                decay_start_time: 0,
                decay_end_time: 0,
                release_end_time: 0,
                stage: EnvelopeStage::DELAY,
                current_time: 0,
            }),
    {
        ModulationEnvelope {
            attack_start_time: 0,
            hold_start_time: 0,
            decay_start_time: 0,
            decay_end_time: 0,
            release_end_time: 0,
            stage: EnvelopeStage::DELAY,
            current_time: 0,
        }
    }

    /// Starts the envelope at time 0 with the lengths of its stages, in
    /// samples.
    pub fn start(&mut self, delay: u32, attack: u32, hold: u32, decay: u32, release: u32)
        ensures
            *final(self) == Self::started(delay, attack, hold, decay, release),
    {
        self.attack_start_time = delay as u64;
        self.hold_start_time = self.attack_start_time + attack as u64;
        self.decay_start_time = self.hold_start_time + hold as u64;
        self.decay_end_time = self.decay_start_time + decay as u64;
        self.release_end_time = release as u64;
        self.current_time = 0;
        self.stage = advance_stage(
            EnvelopeStage::DELAY,
            0,
            self.attack_start_time,
            self.hold_start_time,
            self.decay_start_time,
        );
    }

    /// Enters the release stage at the current time.
    pub fn release(&mut self)
        ensures
            *final(self) == old(self).released(),
            reached_from(old(self).stage, final(self).stage),
    {
        self.stage = EnvelopeStage::RELEASE;
        self.release_end_time = self.release_end_time.saturating_add(self.current_time);
    }

    /// Moves on by one sample and gives the stage that the envelope is in
    /// then.
    pub fn render(&mut self) -> (stage: EnvelopeStage)
        ensures
            *final(self) == old(self).stepped(),
            stage == final(self).stage,
            reached_from(old(self).stage, stage),
    {
        if self.current_time < u64::MAX {
            self.current_time = self.current_time + 1;
        }
        self.stage = advance_stage(
            self.stage,
            self.current_time,
            self.attack_start_time,
            self.hold_start_time,
            self.decay_start_time,
        );
        self.stage
    }
}

} // verus!

//! The stages of an envelope in time, and the clock of the volume envelope.

use crate::EnvelopeStage;
use vstd::prelude::*;

verus! {

/// The stage that an envelope is in at `time`, having been in `stage` before:
/// it leaves DELAY, ATTACK and HOLD as soon as their end is reached, and stays
/// in DECAY and RELEASE.
pub open spec fn stage_at(
    stage: EnvelopeStage,
    time: int,
    attack_start: int,
    hold_start: int,
    decay_start: int,
) -> EnvelopeStage {
    match stage {
        EnvelopeStage::DELAY => if time < attack_start {
            EnvelopeStage::DELAY
        } else if time < hold_start {
            EnvelopeStage::ATTACK
        } else if time < decay_start {
            EnvelopeStage::HOLD
        } else {
            EnvelopeStage::DECAY
        },
        EnvelopeStage::ATTACK => if time < hold_start {
            EnvelopeStage::ATTACK
        } else if time < decay_start {
            EnvelopeStage::HOLD
        } else {
            EnvelopeStage::DECAY
        },
        EnvelopeStage::HOLD => if time < decay_start {
            EnvelopeStage::HOLD
        } else {
            EnvelopeStage::DECAY
        },
        EnvelopeStage::DECAY => EnvelopeStage::DECAY,
        EnvelopeStage::RELEASE => EnvelopeStage::RELEASE,
    }
}

/// `to` is `from` or one of the stages that follow it.
pub open spec fn reached_from(from: EnvelopeStage, to: EnvelopeStage) -> bool {
    from.rank() <= to.rank()
}

/// An envelope never goes back: the stage it is in at any time is the one it
/// was in or a later one, and the same holds from one time to a later time.
pub proof fn lemma_stage_never_decreases(
    stage: EnvelopeStage,
    earlier: int,
    later: int,
    attack_start: int,
    hold_start: int,
    decay_start: int,
)
    requires
        earlier <= later,
        attack_start <= hold_start <= decay_start,
    ensures
        reached_from(stage, stage_at(stage, earlier, attack_start, hold_start, decay_start)),
        reached_from(
            stage_at(stage, earlier, attack_start, hold_start, decay_start),
            stage_at(stage, later, attack_start, hold_start, decay_start),
        ),
        stage_at(
            stage_at(stage, earlier, attack_start, hold_start, decay_start),
            later,
            attack_start,
            hold_start,
            decay_start,
        ) == stage_at(stage, later, attack_start, hold_start, decay_start),
{
}

/// Moves `stage` on to where it is at `time`.
pub fn advance_stage(
    stage: EnvelopeStage,
    time: u64,
    attack_start: u64,
    hold_start: u64,
    decay_start: u64,
) -> (reached: EnvelopeStage)
    ensures
        reached == stage_at(
            stage,
            time as int,
            attack_start as int,
            hold_start as int,
            decay_start as int,
        ),
        reached_from(stage, reached),
{
    let mut current = stage;
    loop
        invariant
            reached_from(stage, current),
            stage_at(
                current,
                time as int,
                attack_start as int,
                hold_start as int,
                decay_start as int,
            ) == stage_at(
                stage,
                time as int,
                attack_start as int,
                hold_start as int,
                decay_start as int,
            ),
        ensures
            current == stage_at(
                stage,
                time as int,
                attack_start as int,
                hold_start as int,
                decay_start as int,
            ),
            reached_from(stage, current),
        decreases 4 - current.rank(),
    {
        let end_time: u64 = match current {
            EnvelopeStage::DELAY => attack_start,
            EnvelopeStage::ATTACK => hold_start,
            EnvelopeStage::HOLD => decay_start,
            _ => {
                break ;
            },
        };
        if time < end_time {
            break ;
        }
        current.next();
    }
    current
}

/// The clock of a volume envelope.
///
/// Times are counted in samples.  The level that belongs to a stage and a
/// time is for the caller to compute; this type decides the stage.
#[derive(Clone, Copy, Debug)]
pub struct VolumeEnvelope {
    pub attack_start_time: u64,
    pub hold_start_time: u64,
    pub decay_start_time: u64,
    pub release_start_time: u64,
    pub stage: EnvelopeStage,
    pub current_time: u64,
}

impl VolumeEnvelope {
    /// The envelope that `start` sets up.
    pub open spec fn started(delay: u32, attack: u32, hold: u32) -> VolumeEnvelope {
        VolumeEnvelope {
            attack_start_time: delay as u64,
            hold_start_time: (delay + attack) as u64,
            decay_start_time: (delay + attack + hold) as u64,
            release_start_time: 0,
            stage: stage_at(EnvelopeStage::DELAY, 0, delay as int, delay + attack, delay + attack + hold),
            current_time: 0,
        }
    }

    /// The envelope one sample later.
    pub open spec fn stepped(self) -> VolumeEnvelope {
        let time = if self.current_time < u64::MAX {
            (self.current_time + 1) as u64
        } else {
            self.current_time
        };
        VolumeEnvelope {
            current_time: time,
            stage: stage_at(
                self.stage,
                time as int,
                self.attack_start_time as int,
                self.hold_start_time as int,
                self.decay_start_time as int,
            ),
            ..self
        }
    }

    /// An envelope at rest.
    pub fn new() -> (envelope: Self)
        ensures
            envelope == (VolumeEnvelope {
                attack_start_time: 0,
                hold_start_time: 0,
                decay_start_time: 0,
                release_start_time: 0,
                stage: EnvelopeStage::DELAY,
                current_time: 0,
            }),
    {
        VolumeEnvelope {
            attack_start_time: 0,
            hold_start_time: 0,
            decay_start_time: 0,
            release_start_time: 0,
            stage: EnvelopeStage::DELAY,
            current_time: 0,
        }
    }

    /// Starts the envelope at time 0 with the lengths of its first three
    /// stages, in samples.
    pub fn start(&mut self, delay: u32, attack: u32, hold: u32)
        ensures
            *final(self) == Self::started(delay, attack, hold),
    {
        self.attack_start_time = delay as u64;
        self.hold_start_time = self.attack_start_time + attack as u64;
        self.decay_start_time = self.hold_start_time + hold as u64;
        self.release_start_time = 0;
        self.current_time = 0;
        self.stage = advance_stage(
            EnvelopeStage::DELAY,
            0,
            self.attack_start_time,
            self.hold_start_time,
            self.decay_start_time,
        );
    }

    /// Enters the release stage at the current time.
    pub fn release(&mut self)
        ensures
            *final(self) == (VolumeEnvelope {
                stage: EnvelopeStage::RELEASE,
                release_start_time: old(self).current_time,
                ..*old(self)
            }),
            reached_from(old(self).stage, final(self).stage),
    {
        self.stage = EnvelopeStage::RELEASE;
        self.release_start_time = self.current_time;
    }

    /// Moves on by one sample and gives the stage that the envelope is in
    /// then.
    pub fn render(&mut self) -> (stage: EnvelopeStage)
        ensures
            *final(self) == old(self).stepped(),
            stage == final(self).stage,
            reached_from(old(self).stage, stage),
    {
        if self.current_time < u64::MAX {
            self.current_time = self.current_time + 1;
        }
        self.stage = advance_stage(
            self.stage,
            self.current_time,
            self.attack_start_time,
            self.hold_start_time,
            self.decay_start_time,
        );
        self.stage
    }

    /// The weight of the stage when a voice has to be stolen.
    pub fn get_priority(&self) -> (priority: u8)
        ensures
            priority == 5 - self.stage.rank(),
    {
        self.stage.get_priority()
    }
}

} // verus!

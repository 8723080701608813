use rustysynth::modulation_envelope::ModulationEnvelope;
use rustysynth::volume_envelope::{advance_stage, VolumeEnvelope};
use rustysynth::EnvelopeStage;

fn rank(stage: EnvelopeStage) -> u8 {
    5 - stage.get_priority()
}

#[test]
fn stages_follow_each_other() {
    let mut stage = EnvelopeStage::DELAY;
    stage.next();
    assert_eq!(stage, EnvelopeStage::ATTACK);
    stage.next();
    assert_eq!(stage, EnvelopeStage::HOLD);
    stage.next();
    assert_eq!(stage, EnvelopeStage::DECAY);
    stage.next();
    assert_eq!(stage, EnvelopeStage::RELEASE);
    stage.next();
    assert_eq!(stage, EnvelopeStage::RELEASE);
}

#[test]
fn priorities_fall_from_five_to_one() {
    assert_eq!(EnvelopeStage::DELAY.get_priority(), 5);
    assert_eq!(EnvelopeStage::ATTACK.get_priority(), 4);
    assert_eq!(EnvelopeStage::HOLD.get_priority(), 3);
    assert_eq!(EnvelopeStage::DECAY.get_priority(), 2);
    assert_eq!(EnvelopeStage::RELEASE.get_priority(), 1);
}

#[test]
fn advance_stage_leaves_a_stage_when_its_end_is_reached() {
    assert_eq!(advance_stage(EnvelopeStage::DELAY, 9, 10, 20, 30), EnvelopeStage::DELAY);
    assert_eq!(advance_stage(EnvelopeStage::DELAY, 10, 10, 20, 30), EnvelopeStage::ATTACK);
    assert_eq!(advance_stage(EnvelopeStage::DELAY, 19, 10, 20, 30), EnvelopeStage::ATTACK);
    assert_eq!(advance_stage(EnvelopeStage::DELAY, 20, 10, 20, 30), EnvelopeStage::HOLD);
    assert_eq!(advance_stage(EnvelopeStage::DELAY, 29, 10, 20, 30), EnvelopeStage::HOLD);
    assert_eq!(advance_stage(EnvelopeStage::DELAY, 30, 10, 20, 30), EnvelopeStage::DECAY);
    assert_eq!(advance_stage(EnvelopeStage::DELAY, 1_000_000, 10, 20, 30), EnvelopeStage::DECAY);
    assert_eq!(advance_stage(EnvelopeStage::HOLD, 0, 10, 20, 30), EnvelopeStage::HOLD);
    assert_eq!(advance_stage(EnvelopeStage::DECAY, 0, 10, 20, 30), EnvelopeStage::DECAY);
    assert_eq!(advance_stage(EnvelopeStage::RELEASE, 0, 10, 20, 30), EnvelopeStage::RELEASE);
}

#[test]
fn volume_envelope_walks_through_its_stages() {
    let mut envelope = VolumeEnvelope::new();
    envelope.start(2, 3, 4);
    assert_eq!(envelope.attack_start_time, 2);
    assert_eq!(envelope.hold_start_time, 5);
    assert_eq!(envelope.decay_start_time, 9);
    assert_eq!(envelope.stage, EnvelopeStage::DELAY);
    assert_eq!(envelope.current_time, 0);
    let mut seen = Vec::new();
    for _ in 0..10 {
        seen.push(envelope.render());
    }
    assert_eq!(
        seen,
        vec![
            EnvelopeStage::DELAY,
            EnvelopeStage::ATTACK,
            EnvelopeStage::ATTACK,
            EnvelopeStage::ATTACK,
            EnvelopeStage::HOLD,
            EnvelopeStage::HOLD,
            EnvelopeStage::HOLD,
            EnvelopeStage::HOLD,
            EnvelopeStage::DECAY,
            EnvelopeStage::DECAY,
        ]
    );
    assert_eq!(envelope.current_time, 10);
    assert_eq!(envelope.get_priority(), 2);
}

#[test]
fn stages_of_no_length_are_passed_at_the_start() {
    let mut envelope = VolumeEnvelope::new();
    envelope.start(0, 0, 0);
    assert_eq!(envelope.stage, EnvelopeStage::DECAY);
    envelope.start(0, 5, 0);
    assert_eq!(envelope.stage, EnvelopeStage::ATTACK);
    envelope.start(0, 0, 5);
    assert_eq!(envelope.stage, EnvelopeStage::HOLD);
}

#[test]
fn the_stage_never_goes_back() {
    let mut envelope = VolumeEnvelope::new();
    envelope.start(3, 1, 2);
    let mut last = rank(envelope.stage);
    for step in 0..20 {
        if step == 4 {
            envelope.release();
        } else {
            envelope.render();
        }
        assert!(rank(envelope.stage) >= last);
        last = rank(envelope.stage);
    }
    assert_eq!(envelope.stage, EnvelopeStage::RELEASE);
}

#[test]
fn release_notes_the_time() {
    let mut envelope = VolumeEnvelope::new();
    envelope.start(100, 100, 100);
    for _ in 0..7 {
        envelope.render();
    }
    envelope.release();
    assert_eq!(envelope.stage, EnvelopeStage::RELEASE);
    assert_eq!(envelope.release_start_time, 7);
    assert_eq!(envelope.get_priority(), 1);
    assert_eq!(envelope.render(), EnvelopeStage::RELEASE);
    assert_eq!(envelope.current_time, 8);
}

#[test]
fn the_longest_stages_fit() {
    let mut envelope = VolumeEnvelope::new();
    envelope.start(u32::MAX, u32::MAX, u32::MAX);
    assert_eq!(envelope.decay_start_time, 3 * (u32::MAX as u64));
    assert_eq!(envelope.stage, EnvelopeStage::DELAY);
}

#[test]
fn the_clock_stops_at_its_end() {
    let mut envelope = VolumeEnvelope::new();
    envelope.start(0, 0, 0);
    envelope.current_time = u64::MAX - 1;
    envelope.render();
    assert_eq!(envelope.current_time, u64::MAX);
    envelope.render();
    assert_eq!(envelope.current_time, u64::MAX);
}

#[test]
fn modulation_envelope_walks_through_its_stages() {
    let mut envelope = ModulationEnvelope::new();
    envelope.start(1, 2, 3, 4, 50);
    assert_eq!(envelope.attack_start_time, 1);
    assert_eq!(envelope.hold_start_time, 3);
    assert_eq!(envelope.decay_start_time, 6);
    assert_eq!(envelope.decay_end_time, 10);
    assert_eq!(envelope.release_end_time, 50);
    assert_eq!(envelope.stage, EnvelopeStage::DELAY);
    assert_eq!(envelope.render(), EnvelopeStage::ATTACK);
    assert_eq!(envelope.render(), EnvelopeStage::ATTACK);
    assert_eq!(envelope.render(), EnvelopeStage::HOLD);
    assert_eq!(envelope.render(), EnvelopeStage::HOLD);
    assert_eq!(envelope.render(), EnvelopeStage::HOLD);
    assert_eq!(envelope.render(), EnvelopeStage::DECAY);
}

#[test]
fn modulation_release_ends_its_length_after_now() {
    let mut envelope = ModulationEnvelope::new();
    envelope.start(1, 2, 3, 4, 50);
    for _ in 0..8 {
        envelope.render();
    }
    envelope.release();
    assert_eq!(envelope.stage, EnvelopeStage::RELEASE);
    assert_eq!(envelope.release_end_time, 58);
    envelope.current_time = u64::MAX;
    envelope.release();
    assert_eq!(envelope.release_end_time, u64::MAX);
}

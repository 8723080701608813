use rustysynth::channel::Channel;
use rustysynth::oscillator::{View, FRAC_UNIT};
use rustysynth::region_pair::RegionPair;
use rustysynth::soundfont::{InstrumentRegion, PresetRegion};
use rustysynth::voice::{NoteTiming, Voice, VoiceState};
use rustysynth::voice_collection::VoiceCollection;
use rustysynth::{generator_type, EnvelopeStage, LoopMode};
use std::sync::Arc;

fn samples() -> Vec<i16> {
    (0..1000).map(|i| (i % 100) as i16).collect()
}

fn region(loop_mode: LoopMode) -> RegionPair {
    RegionPair {
        preset: PresetRegion {
            gs: [0; 58],
            key_range_start: 0,
            key_range_end: 127,
            velocity_range_start: 0,
            velocity_range_end: 127,
            instrument: 0,
        },
        instrument: InstrumentRegion {
            gs: [0; 58],
            key_range_start: 0,
            key_range_end: 127,
            velocity_range_start: 0,
            velocity_range_end: 127,
            sample_start: 10,
            sample_end: 900,
            sample_start_loop: 100,
            sample_end_loop: 200,
            sample_sample_rate: 44100,
            root_key: 60,
            sample_pitch_correction: 0,
            sample_modes: loop_mode,
            exclusive_class: 0,
        },
        wave_data: View { data: Arc::new(samples()), start: 10, end: 900 },
    }
}

fn timing() -> NoteTiming {
    NoteTiming {
        gain_audible: true,
        volume_delay: 0,
        volume_attack: 5,
        volume_hold: 5,
        modulation_delay: 0,
        modulation_attack: 5,
        modulation_hold: 5,
        modulation_decay: 5,
        modulation_release: 5,
    }
}

fn channels() -> Vec<Channel> {
    (0..16).map(|_| Channel::new()).collect()
}

fn step(pool: &mut VoiceCollection, channels: &Vec<Channel>, data: &[i16]) {
    pool.advance(channels);
    for i in 0..pool.active_count() {
        pool.drive(i, true, FRAC_UNIT);
    }
    pool.process(data);
}

fn keys(pool: &VoiceCollection) -> Vec<i32> {
    let mut keys: Vec<i32> = (0..pool.active_count()).map(|i| pool.voice(i).key).collect();
    keys.sort();
    keys
}

fn slots(pool: &VoiceCollection) -> Vec<usize> {
    let mut slots: Vec<usize> = (0..pool.capacity()).map(|i| pool.voice(i).slot).collect();
    slots.sort();
    slots
}

#[test]
fn a_new_pool_is_silent() {
    let pool = VoiceCollection::new(8, 88);
    assert_eq!(pool.active_count(), 0);
    assert_eq!(pool.capacity(), 8);
    assert_eq!(slots(&pool), vec![0, 1, 2, 3, 4, 5, 6, 7]);
}

#[test]
fn voice_start_takes_the_region() {
    let mut pair = region(LoopMode::Continuous);
    pair.preset.gs[generator_type::PAN] = 400;
    pair.instrument.gs[generator_type::PAN] = 400;
    pair.instrument.gs[generator_type::REVERB_EFFECTS_SEND] = 250;
    pair.preset.gs[generator_type::CHORUS_EFFECTS_SEND] = 50;
    pair.instrument.gs[generator_type::MODULATION_LFO_TO_VOLUME] = 1;
    pair.instrument.gs[generator_type::MODULATION_ENVELOPE_TO_FILTER_CUTOFF_FREQUENCY] = -1;
    pair.instrument.gs[generator_type::FINE_TUNE] = 3;
    pair.instrument.sample_pitch_correction = -1;
    pair.instrument.exclusive_class = 4;
    let mut voice = Voice::new(3);
    voice.start(&pair, 9, 38, 100, &timing());
    assert_eq!(voice.slot, 3);
    assert_eq!(voice.channel, 9);
    assert_eq!(voice.key, 38);
    assert_eq!(voice.velocity, 100);
    assert_eq!(voice.exclusive_class, 4);
    assert!(voice.gain_audible);
    assert!(voice.dynamic_cutoff);
    assert!(voice.dynamic_volume);
    assert_eq!(voice.instrument_pan, 500);
    assert_eq!(voice.instrument_reverb, 250);
    assert_eq!(voice.instrument_chorus, 50);
    assert_eq!(voice.voice_state, VoiceState::Playing);
    assert_eq!(voice.voice_length, 0);
    assert_eq!(voice.oscillator.position_fp, 10 * FRAC_UNIT);
    assert_eq!(voice.oscillator.start, 10);
    assert_eq!(voice.oscillator.end, 900);
    assert_eq!(voice.oscillator.start_loop, 100);
    assert_eq!(voice.oscillator.end_loop, 200);
    assert_eq!(voice.oscillator.root_key, 60);
    assert_eq!(voice.oscillator.fine_tune, 2);
    assert!(voice.oscillator.looping);
    assert_eq!(voice.vol_env.stage, EnvelopeStage::ATTACK);
    assert_eq!(voice.vol_env.decay_start_time, 10);
    assert_eq!(voice.mod_env.decay_end_time, 15);
    assert_eq!(voice.get_priority(), 4);
}

#[test]
fn voice_start_without_modulation_is_static() {
    let mut pair = region(LoopMode::NoLoop);
    pair.instrument.gs[generator_type::PAN] = -501;
    pair.instrument.gs[generator_type::MODULATION_LFO_TO_VOLUME] = 0;
    let mut voice = Voice::new(0);
    voice.start(&pair, 0, 60, 1, &timing());
    assert!(!voice.dynamic_cutoff);
    assert!(!voice.dynamic_volume);
    assert_eq!(voice.instrument_pan, -500);
    assert!(!voice.oscillator.looping);
}

#[test]
fn a_note_that_cannot_be_heard_weighs_nothing() {
    let mut voice = Voice::new(0);
    let mut silent = timing();
    silent.gain_audible = false;
    voice.start(&region(LoopMode::NoLoop), 0, 60, 100, &silent);
    assert!(!voice.gain_audible);
    assert_eq!(voice.get_priority(), 0);
    voice.start(&region(LoopMode::NoLoop), 0, 60, 0, &timing());
    assert!(!voice.gain_audible);
    voice.start(&region(LoopMode::NoLoop), 0, 60, 1, &timing());
    assert_eq!(voice.get_priority(), 4);
    voice.kill();
    assert_eq!(voice.get_priority(), 0);
}

#[test]
fn free_voices_are_taken_in_order() {
    let mut pool = VoiceCollection::new(8, 88);
    for expected in 0..8 {
        assert_eq!(pool.request_new(), expected);
        assert_eq!(pool.active_count(), expected + 1);
        pool.start(expected, &region(LoopMode::Continuous), 0, 60 + expected as i32, 100, &timing());
    }
}

#[test]
fn polyphony_cap_and_stealing() {
    let data = samples();
    let channels = channels();
    let mut pool = VoiceCollection::new(8, 88);
    for note in 0..10 {
        let index = pool.request_new();
        pool.start(index, &region(LoopMode::Continuous), 0, 60 + note, 100, &timing());
        for _ in 0..20 {
            step(&mut pool, &channels, &data);
        }
    }
    assert_eq!(pool.active_count(), 8);
    assert_eq!(keys(&pool), vec![62, 63, 64, 65, 66, 67, 68, 69]);
    assert_eq!(slots(&pool), vec![0, 1, 2, 3, 4, 5, 6, 7]);
}

#[test]
fn the_voice_in_the_latest_stage_is_stolen_first() {
    let data = samples();
    let channels = channels();
    let mut pool = VoiceCollection::new(8, 88);
    for note in 0..8 {
        let index = pool.request_new();
        let mut lengths = timing();
        if note == 5 {
            lengths.volume_attack = 0;
            lengths.volume_hold = 0;
        }
        pool.start(index, &region(LoopMode::Continuous), 0, 60 + note, 100, &lengths);
        step(&mut pool, &channels, &data);
    }
    assert_eq!(pool.voice(5).vol_env.stage, EnvelopeStage::DECAY);
    assert_eq!(pool.voice(0).vol_env.stage, EnvelopeStage::HOLD);
    assert_eq!(pool.request_new(), 5);
    assert_eq!(pool.active_count(), 8);
}

#[test]
fn a_silenced_voice_is_stolen_before_all_others() {
    let data = samples();
    let channels = channels();
    let mut pool = VoiceCollection::new(8, 88);
    for note in 0..8 {
        let index = pool.request_new();
        pool.start(index, &region(LoopMode::Continuous), note, 60, 100, &timing());
        step(&mut pool, &channels, &data);
    }
    pool.note_off_all_channel(6, true);
    assert_eq!(pool.request_new(), 6);
}

#[test]
fn of_equal_voices_the_one_started_first_is_stolen() {
    let mut pool = VoiceCollection::new(8, 88);
    for note in 0..8 {
        let index = pool.request_new();
        pool.start(index, &region(LoopMode::Continuous), 0, 60 + note, 100, &timing());
        assert_eq!(pool.voice(index).started_at, note as u64);
    }
    let index = pool.request_new();
    assert_eq!(index, 0);
    pool.start(index, &region(LoopMode::Continuous), 0, 68, 100, &timing());
    assert_eq!(pool.voice(0).started_at, 8);
    assert_eq!(pool.request_new(), 1);
}

#[test]
fn ten_notes_at_once_leave_the_last_eight() {
    let mut pool = VoiceCollection::new(8, 88);
    for note in 0..10 {
        let index = pool.request_new();
        pool.start(index, &region(LoopMode::Continuous), 0, 60 + note, 100, &timing());
    }
    assert_eq!(pool.active_count(), 8);
    assert_eq!(keys(&pool), vec![62, 63, 64, 65, 66, 67, 68, 69]);
    assert_eq!(slots(&pool), vec![0, 1, 2, 3, 4, 5, 6, 7]);
}

#[test]
fn twenty_notes_at_once_leave_the_last_eight() {
    let mut pool = VoiceCollection::new(8, 88);
    for note in 0..20 {
        let index = pool.request_new();
        pool.start(index, &region(LoopMode::Continuous), 0, 60 + note, 100, &timing());
    }
    assert_eq!(keys(&pool), vec![72, 73, 74, 75, 76, 77, 78, 79]);
}

#[test]
fn the_note_started_first_is_stolen_wherever_it_stands() {
    let data = samples();
    let channels = channels();
    let mut pool = VoiceCollection::new(8, 88);
    for note in 0..8 {
        let index = pool.request_new();
        pool.start(index, &region(LoopMode::Continuous), note, 60 + note, 100, &timing());
    }
    pool.note_off_all_channel(0, true);
    step(&mut pool, &channels, &data);
    assert_eq!(pool.active_count(), 7);
    assert_eq!(pool.voice(0).key, 67);
    assert_eq!(pool.voice(0).started_at, 7);
    let index = pool.request_new();
    assert_eq!(index, 7);
    pool.start(index, &region(LoopMode::Continuous), 8, 68, 100, &timing());
    step(&mut pool, &channels, &data);
    for i in 0..7 {
        assert_eq!(pool.voice(i).voice_length, 2);
    }
    assert_eq!(pool.voice(7).voice_length, 1);
    let stolen = pool.request_new();
    assert_eq!(stolen, 1);
    assert_eq!(pool.voice(stolen).key, 61);
    assert_eq!(pool.voice(stolen).started_at, 1);
}

#[test]
fn of_equal_weights_the_longest_played_goes_before_the_first_started() {
    let data = samples();
    let channels = channels();
    let mut pool = VoiceCollection::new(8, 88);
    for note in 0..8 {
        let index = pool.request_new();
        pool.start(index, &region(LoopMode::Continuous), note, 60 + note, 100, &timing());
    }
    pool.note_off_all_channel(0, true);
    step(&mut pool, &channels, &data);
    let index = pool.request_new();
    pool.start(index, &region(LoopMode::Continuous), 0, 60, 100, &timing());
    let first = pool.voice(1);
    let latest = pool.voice(index);
    assert!(first.steals_before(latest));
    assert!(!latest.steals_before(first));
    assert!(!first.steals_before(first));
    let moved = pool.voice(0);
    assert_eq!(moved.voice_length, first.voice_length);
    assert!(first.steals_before(moved));
    assert!(!moved.steals_before(first));
}

#[test]
fn process_makes_the_samples_and_counts_them() {
    let data = samples();
    let channels = channels();
    let mut pool = VoiceCollection::new(8, 88);
    let index = pool.request_new();
    pool.start(index, &region(LoopMode::NoLoop), 0, 60, 100, &timing());
    pool.advance(&channels);
    pool.drive(0, true, FRAC_UNIT / 2);
    pool.process(&data);
    assert_eq!(pool.active_count(), 1);
    assert_eq!(pool.voice(0).sample, 10 * FRAC_UNIT);
    assert_eq!(pool.voice(0).voice_length, 1);
    assert_eq!(pool.voice(0).vol_env.current_time, 1);
    assert_eq!(pool.voice(0).mod_env.current_time, 1);
    pool.advance(&channels);
    pool.drive(0, true, FRAC_UNIT / 2);
    pool.process(&data);
    assert_eq!(pool.voice(0).sample, 10 * FRAC_UNIT + FRAC_UNIT / 2);
    assert_eq!(pool.voice(0).voice_length, 2);
    assert_eq!(pool.voice(0).oscillator.position_fp, 11 * FRAC_UNIT);
}

#[test]
fn a_silenced_voice_is_freed_by_the_next_sample() {
    let data = samples();
    let channels = channels();
    let mut pool = VoiceCollection::new(8, 88);
    for note in 0..4 {
        let index = pool.request_new();
        pool.start(index, &region(LoopMode::Continuous), note, 60 + note, 100, &timing());
    }
    step(&mut pool, &channels, &data);
    pool.note_off_all_channel(1, true);
    assert_eq!(pool.active_count(), 4);
    step(&mut pool, &channels, &data);
    assert_eq!(pool.active_count(), 3);
    assert_eq!(keys(&pool), vec![60, 62, 63]);
    assert_eq!(slots(&pool), vec![0, 1, 2, 3, 4, 5, 6, 7]);
    for i in 0..3 {
        assert_eq!(pool.voice(i).voice_length, 2);
    }
}

#[test]
fn a_voice_whose_envelope_has_died_away_is_freed() {
    let data = samples();
    let channels = channels();
    let mut pool = VoiceCollection::new(8, 88);
    for note in 0..3 {
        let index = pool.request_new();
        pool.start(index, &region(LoopMode::Continuous), 0, 60 + note, 100, &timing());
    }
    for _ in 0..9 {
        step(&mut pool, &channels, &data);
    }
    pool.advance(&channels);
    assert_eq!(pool.voice(0).vol_env.stage, EnvelopeStage::DECAY);
    pool.drive(0, false, FRAC_UNIT);
    pool.drive(1, true, FRAC_UNIT);
    pool.drive(2, true, FRAC_UNIT);
    pool.process(&data);
    assert_eq!(keys(&pool), vec![61, 62]);
}

#[test]
fn a_level_too_low_to_hear_ends_no_voice_before_its_decay() {
    let data = samples();
    let channels = channels();
    let mut pool = VoiceCollection::new(8, 88);
    let mut lengths = timing();
    lengths.volume_delay = 3;
    let index = pool.request_new();
    pool.start(index, &region(LoopMode::Continuous), 0, 60, 100, &lengths);
    let expected = [
        EnvelopeStage::DELAY,
        EnvelopeStage::DELAY,
        EnvelopeStage::ATTACK,
        EnvelopeStage::ATTACK,
        EnvelopeStage::ATTACK,
        EnvelopeStage::ATTACK,
        EnvelopeStage::ATTACK,
        EnvelopeStage::HOLD,
        EnvelopeStage::HOLD,
        EnvelopeStage::HOLD,
        EnvelopeStage::HOLD,
        EnvelopeStage::HOLD,
    ];
    for stage in expected {
        pool.advance(&channels);
        assert_eq!(pool.voice(0).vol_env.stage, stage);
        pool.drive(0, false, FRAC_UNIT);
        assert!(pool.voice(0).audible);
        pool.process(&data);
        assert_eq!(pool.active_count(), 1);
    }
    pool.advance(&channels);
    assert_eq!(pool.voice(0).vol_env.stage, EnvelopeStage::DECAY);
    pool.drive(0, false, FRAC_UNIT);
    assert!(!pool.voice(0).audible);
    pool.process(&data);
    assert_eq!(pool.active_count(), 0);
}

#[test]
fn a_level_too_low_to_hear_ends_a_released_voice() {
    let data = samples();
    let channels = channels();
    let mut pool = VoiceCollection::new(8, 2);
    let index = pool.request_new();
    pool.start(index, &region(LoopMode::Continuous), 0, 60, 100, &timing());
    step(&mut pool, &channels, &data);
    step(&mut pool, &channels, &data);
    pool.note_off(0, 60);
    pool.advance(&channels);
    assert_eq!(pool.voice(0).vol_env.stage, EnvelopeStage::RELEASE);
    pool.drive(0, false, FRAC_UNIT);
    pool.process(&data);
    assert_eq!(pool.active_count(), 0);
}

#[test]
fn a_voice_whose_sample_has_run_out_is_freed() {
    let data = samples();
    let channels = channels();
    let mut pool = VoiceCollection::new(8, 88);
    let index = pool.request_new();
    pool.start(index, &region(LoopMode::NoLoop), 0, 60, 100, &timing());
    let index = pool.request_new();
    pool.start(index, &region(LoopMode::Continuous), 0, 61, 100, &timing());
    for _ in 0..889 {
        step(&mut pool, &channels, &data);
        assert_eq!(pool.active_count(), 2);
    }
    step(&mut pool, &channels, &data);
    step(&mut pool, &channels, &data);
    assert_eq!(keys(&pool), vec![61]);
}

#[test]
fn all_voices_can_end_at_once() {
    let data = samples();
    let channels = channels();
    let mut pool = VoiceCollection::new(8, 88);
    for note in 0..8 {
        let index = pool.request_new();
        pool.start(index, &region(LoopMode::Continuous), 0, 60 + note, 100, &timing());
    }
    pool.note_off_all(true);
    step(&mut pool, &channels, &data);
    assert_eq!(pool.active_count(), 0);
    assert_eq!(slots(&pool), vec![0, 1, 2, 3, 4, 5, 6, 7]);
}

#[test]
fn note_off_requests_the_release_of_its_key_alone() {
    let mut pool = VoiceCollection::new(8, 88);
    for (channel, key) in [(0, 60), (0, 61), (1, 60), (0, 60)] {
        let index = pool.request_new();
        pool.start(index, &region(LoopMode::Continuous), channel, key, 100, &timing());
    }
    pool.note_off(0, 60);
    assert_eq!(pool.voice(0).voice_state, VoiceState::ReleaseRequested);
    assert_eq!(pool.voice(1).voice_state, VoiceState::Playing);
    assert_eq!(pool.voice(2).voice_state, VoiceState::Playing);
    assert_eq!(pool.voice(3).voice_state, VoiceState::ReleaseRequested);
    pool.note_off_all_channel(1, false);
    assert_eq!(pool.voice(2).voice_state, VoiceState::ReleaseRequested);
    assert_eq!(pool.voice(1).voice_state, VoiceState::Playing);
    pool.note_off_all(false);
    assert_eq!(pool.voice(1).voice_state, VoiceState::ReleaseRequested);
    assert!(pool.voice(1).gain_audible);
}

#[test]
fn the_release_waits_for_the_least_length() {
    let data = samples();
    let channels = channels();
    let mut pool = VoiceCollection::new(8, 88);
    let index = pool.request_new();
    pool.start(index, &region(LoopMode::LoopUntilNoteOff), 0, 60, 100, &timing());
    pool.note_off(0, 60);
    for _ in 0..88 {
        step(&mut pool, &channels, &data);
        assert_eq!(pool.voice(0).voice_state, VoiceState::ReleaseRequested);
        assert!(pool.voice(0).oscillator.looping);
    }
    assert_eq!(pool.voice(0).voice_length, 88);
    step(&mut pool, &channels, &data);
    assert_eq!(pool.voice(0).voice_state, VoiceState::Released);
    assert_eq!(pool.voice(0).vol_env.stage, EnvelopeStage::RELEASE);
    assert_eq!(pool.voice(0).vol_env.release_start_time, 88);
    assert_eq!(pool.voice(0).mod_env.stage, EnvelopeStage::RELEASE);
    assert_eq!(pool.voice(0).mod_env.release_end_time, 93);
    assert!(!pool.voice(0).oscillator.looping);
    assert_eq!(pool.voice(0).get_priority(), 1);
}

#[test]
fn the_hold_pedal_keeps_a_voice_from_its_release() {
    let data = samples();
    let mut channels = channels();
    channels[0].set_hold_pedal(127);
    let mut pool = VoiceCollection::new(8, 88);
    for key in [60, 64, 67] {
        let index = pool.request_new();
        pool.start(index, &region(LoopMode::Continuous), 0, key, 100, &timing());
    }
    for _ in 0..100 {
        step(&mut pool, &channels, &data);
    }
    pool.note_off_all_channel(0, false);
    for _ in 0..100 {
        step(&mut pool, &channels, &data);
        for i in 0..3 {
            assert_eq!(pool.voice(i).voice_state, VoiceState::ReleaseRequested);
            assert_eq!(pool.voice(i).vol_env.stage, EnvelopeStage::DECAY);
        }
    }
    channels[0].set_hold_pedal(63);
    step(&mut pool, &channels, &data);
    for i in 0..3 {
        assert_eq!(pool.voice(i).voice_state, VoiceState::Released);
        assert_eq!(pool.voice(i).vol_env.stage, EnvelopeStage::RELEASE);
    }
}

#[test]
fn clear_frees_every_voice() {
    let mut pool = VoiceCollection::new(8, 88);
    for note in 0..5 {
        let index = pool.request_new();
        pool.start(index, &region(LoopMode::Continuous), 0, 60 + note, 100, &timing());
    }
    pool.clear();
    assert_eq!(pool.active_count(), 0);
    assert_eq!(pool.request_new(), 0);
}

#[test]
fn a_new_voice_is_at_rest() {
    let voice = Voice::new(5);
    assert_eq!(voice.slot, 5);
    assert_eq!((voice.channel, voice.key, voice.velocity, voice.exclusive_class), (0, 0, 0, 0));
    assert!(!voice.gain_audible && !voice.audible);
    assert!(!voice.dynamic_cutoff && !voice.dynamic_volume);
    assert_eq!((voice.instrument_pan, voice.instrument_reverb, voice.instrument_chorus), (0, 0, 0));
    assert_eq!(voice.voice_state, VoiceState::Playing);
    assert_eq!((voice.voice_length, voice.pitch_ratio_fp, voice.sample), (0, 0, 0));
    assert_eq!(voice.vol_env.stage, EnvelopeStage::DELAY);
    assert_eq!(voice.mod_env.stage, EnvelopeStage::DELAY);
    assert_eq!(voice.vol_env.current_time, 0);
    assert_eq!(voice.oscillator.position_fp, 0);
    assert_eq!(voice.oscillator.loop_mode, LoopMode::NoLoop);
    assert!(!voice.oscillator.looping);
    assert_eq!(voice.get_priority(), 0);
    let pool = VoiceCollection::new(3, 88);
    for i in 0..3 {
        assert_eq!(pool.voice(i).slot, i);
        assert_eq!(pool.voice(i).voice_length, 0);
        assert!(!pool.voice(i).gain_audible);
    }
}

use rustysynth::channel::DataType;
use rustysynth::midifile::{ChannelMessage, MidiFile, TrackEvent, TrackEventKind};
use rustysynth::midifile_sequencer::MidiFileSequencer;
use rustysynth::oscillator::FRAC_UNIT;
use rustysynth::soundfont::{Instrument, InstrumentRegion, Preset, PresetRegion, SoundFont};
use rustysynth::synthesizer::{NoteRequest, Synthesizer};
use rustysynth::synthesizer_settings::{SynthesizerError, SynthesizerSettings};
use rustysynth::voice::{NoteTiming, VoiceState};
use rustysynth::{EnvelopeStage, LoopMode};

fn font(ids: &[(i32, i32)], keys: (i32, i32)) -> SoundFont {
    let mut presets = Vec::new();
    let mut instruments = Vec::new();
    for (i, (bank, patch)) in ids.iter().enumerate() {
        presets.push(Preset {
            name: String::new(),
            bank_number: *bank,
            patch_number: *patch,
            regions: vec![PresetRegion {
                gs: [0; 58],
                key_range_start: keys.0,
                key_range_end: keys.1,
                velocity_range_start: 0,
                velocity_range_end: 127,
                instrument: i,
            }],
        });
        instruments.push(Instrument {
            name: String::new(),
            regions: vec![InstrumentRegion {
                gs: [0; 58],
                key_range_start: 0,
                key_range_end: 127,
                velocity_range_start: 0,
                velocity_range_end: 127,
                sample_start: 0,
                sample_end: 900,
                sample_start_loop: 100,
                sample_end_loop: 200,
                sample_sample_rate: 44100,
                root_key: i as i32,
                sample_pitch_correction: 0,
                sample_modes: LoopMode::Continuous,
                exclusive_class: 0,
            }],
        });
    }
    SoundFont { presets, instruments, wave_data: (0..1000).map(|i| i as i16).collect() }
}

fn synthesizer(ids: &[(i32, i32)], polyphony: usize) -> Synthesizer {
    let mut settings = SynthesizerSettings::new(44100);
    settings.maximum_polyphony = polyphony;
    Synthesizer::new(font(ids, (0, 127)), &settings).ok().unwrap()
}

fn timing() -> NoteTiming {
    NoteTiming {
        gain_audible: true,
        volume_delay: 0,
        volume_attack: 5,
        volume_hold: 5,
        modulation_delay: 0,
        modulation_attack: 5,
        modulation_hold: 5,
        modulation_decay: 5,
        modulation_release: 5,
    }
}

fn play(synthesizer: &mut Synthesizer, channel: i32, key: i32) -> Option<usize> {
    let request = synthesizer.note_on(channel, key, 100)?;
    synthesizer.start_voice(&request, &timing())
}

fn render(synthesizer: &mut Synthesizer, samples: usize) {
    for _ in 0..samples {
        synthesizer.advance_voices();
        for i in 0..synthesizer.voices().active_count() {
            synthesizer.drive_voice(i, true, FRAC_UNIT);
        }
        synthesizer.process_voices();
    }
}

fn keys(synthesizer: &Synthesizer) -> Vec<i32> {
    let pool = synthesizer.voices();
    let mut keys: Vec<i32> = (0..pool.active_count()).map(|i| pool.voice(i).key).collect();
    keys.sort();
    keys
}

fn states(synthesizer: &Synthesizer) -> Vec<VoiceState> {
    let pool = synthesizer.voices();
    (0..pool.active_count()).map(|i| pool.voice(i).voice_state).collect()
}

#[test]
fn settings_out_of_range_fail_the_construction() {
    let mut settings = SynthesizerSettings::new(44100);
    settings.maximum_polyphony = 7;
    assert_eq!(
        Synthesizer::new(font(&[(0, 0)], (0, 127)), &settings).err(),
        Some(SynthesizerError::MaximumPolyphonyOutOfRange(7))
    );
    settings.maximum_polyphony = 8;
    settings.block_size = 2000;
    assert_eq!(
        Synthesizer::new(font(&[(0, 0)], (0, 127)), &settings).err(),
        Some(SynthesizerError::BlockSizeOutOfRange(2000))
    );
    settings.sample_rate = 8000;
    assert_eq!(
        Synthesizer::new(font(&[(0, 0)], (0, 127)), &settings).err(),
        Some(SynthesizerError::SampleRateOutOfRange(8000))
    );
}

#[test]
fn a_new_synthesizer_is_reset() {
    let mut settings = SynthesizerSettings::new(48000);
    settings.maximum_polyphony = 16;
    settings.block_size = 128;
    settings.enable_reverb_and_chorus = false;
    let synthesizer = Synthesizer::new(font(&[(0, 0)], (0, 127)), &settings).ok().unwrap();
    assert_eq!(synthesizer.sample_rate(), 48000);
    assert_eq!(synthesizer.block_size(), 128);
    assert!(!synthesizer.enable_reverb_and_chorus());
    assert_eq!(synthesizer.voices().capacity(), 16);
    assert_eq!(synthesizer.voices().active_count(), 0);
    for i in 0..16 {
        assert_eq!(synthesizer.channel(i).volume, 100 << 7);
        assert_eq!(synthesizer.channel(i).expression, 127 << 7);
        assert_eq!(synthesizer.channel(i).rpn, -1);
    }
    assert_eq!(synthesizer.sound_font().wave_data().len(), 1000);
}

#[test]
fn silent_no_match() {
    let settings = SynthesizerSettings::new(44100);
    let mut synthesizer = Synthesizer::new(font(&[(0, 0)], (1, 0)), &settings).ok().unwrap();
    assert!(synthesizer.note_on(0, 60, 100).is_none());
    assert_eq!(synthesizer.voices().active_count(), 0);
    for _ in 0..4096 {
        synthesizer.advance_voices();
        synthesizer.process_voices();
        assert_eq!(synthesizer.voices().active_count(), 0);
    }
}

#[test]
fn note_on_asks_for_a_voice() {
    let mut synthesizer = synthesizer(&[(0, 0), (0, 1)], 8);
    let request: NoteRequest = synthesizer.note_on(3, 60, 100).unwrap();
    assert_eq!(request.channel, 3);
    assert_eq!(request.key, 60);
    assert_eq!(request.velocity, 100);
    assert_eq!(request.region.get_root_key(), 0);
    assert_eq!(synthesizer.voices().active_count(), 0);
    assert_eq!(synthesizer.start_voice(&request, &timing()), Some(0));
    assert_eq!(synthesizer.voices().active_count(), 1);
    let voice = synthesizer.voices().voice(0);
    assert_eq!((voice.channel, voice.key, voice.velocity), (3, 60, 100));
    assert_eq!(voice.voice_state, VoiceState::Playing);
}

#[test]
fn note_on_with_velocity_zero_is_a_note_off() {
    let mut synthesizer = synthesizer(&[(0, 0)], 8);
    play(&mut synthesizer, 0, 60);
    play(&mut synthesizer, 0, 61);
    assert!(synthesizer.note_on(0, 60, 0).is_none());
    assert_eq!(states(&synthesizer), vec![VoiceState::ReleaseRequested, VoiceState::Playing]);
}

#[test]
fn channels_beyond_the_sixteen_are_passed_over() {
    let mut synthesizer = synthesizer(&[(0, 0)], 8);
    assert!(synthesizer.note_on(16, 60, 100).is_none());
    assert!(synthesizer.note_on(-1, 60, 100).is_none());
    let mut request = synthesizer.note_on(0, 60, 100).unwrap();
    request.channel = 16;
    assert_eq!(synthesizer.start_voice(&request, &timing()), None);
    assert_eq!(synthesizer.voices().active_count(), 0);
    assert!(synthesizer
        .process_midi_message(16, ChannelMessage::NoteOn { key: 60, vel: 100 })
        .is_none());
    synthesizer.process_midi_message(200, ChannelMessage::Controller { controller: 7, value: 1 });
    synthesizer.reset_all_controllers_channel(16);
    for i in 0..16 {
        assert_eq!(synthesizer.channel(i).volume, 100 << 7);
    }
}

#[test]
fn the_channel_selects_the_preset() {
    let mut synthesizer = synthesizer(&[(0, 0), (0, 5), (1, 5), (128, 0)], 8);
    let root = |synthesizer: &mut Synthesizer, channel: i32| {
        synthesizer.note_on(channel, 60, 100).map(|request| request.region.get_root_key())
    };
    assert_eq!(root(&mut synthesizer, 0), Some(0));
    synthesizer.process_midi_message(0, ChannelMessage::ProgramChange { program: 5 });
    assert_eq!(root(&mut synthesizer, 0), Some(1));
    assert_eq!(root(&mut synthesizer, 1), Some(0));
    synthesizer.process_midi_message(0, ChannelMessage::Controller { controller: 0, value: 1 });
    assert_eq!(root(&mut synthesizer, 0), Some(2));
    synthesizer.process_midi_message(0, ChannelMessage::Controller { controller: 0, value: 2 });
    assert_eq!(root(&mut synthesizer, 0), Some(1));
    synthesizer.process_midi_message(9, ChannelMessage::Controller { controller: 0, value: 128 });
    synthesizer.process_midi_message(9, ChannelMessage::ProgramChange { program: 25 });
    assert_eq!(root(&mut synthesizer, 9), Some(3));
}

#[test]
fn drums_alone_serve_every_channel() {
    let mut synthesizer = synthesizer(&[(128, 0)], 8);
    synthesizer.process_midi_message(9, ChannelMessage::Controller { controller: 0, value: 128 });
    assert_eq!(synthesizer.channel(9).get_bank_number(), 128);
    let request = synthesizer.note_on(9, 38, 100).unwrap();
    assert_eq!(request.region.get_root_key(), 0);
    assert_eq!(synthesizer.start_voice(&request, &timing()), Some(0));
    assert_eq!(synthesizer.channel(0).get_bank_number(), 0);
    let request = synthesizer.note_on(0, 38, 100).unwrap();
    assert_eq!(request.region.get_root_key(), 0);
    assert_eq!(synthesizer.start_voice(&request, &timing()), Some(1));
    render(&mut synthesizer, 10);
    assert_eq!(synthesizer.voices().active_count(), 2);
    assert_eq!(synthesizer.voices().voice(0).sample, 9 * FRAC_UNIT);
}

#[test]
fn ten_notes_on_eight_voices() {
    let mut synthesizer = synthesizer(&[(0, 0)], 8);
    for note in 0..10 {
        play(&mut synthesizer, 0, 60 + note);
        render(&mut synthesizer, 3);
    }
    assert_eq!(synthesizer.voices().active_count(), 8);
    assert_eq!(keys(&synthesizer), vec![62, 63, 64, 65, 66, 67, 68, 69]);
}

#[test]
fn ten_notes_at_once_on_eight_voices() {
    let mut synthesizer = synthesizer(&[(0, 0)], 8);
    let mut places = Vec::new();
    for note in 0..10 {
        places.push(play(&mut synthesizer, 0, 60 + note));
    }
    assert_eq!(
        places,
        vec![Some(0), Some(1), Some(2), Some(3), Some(4), Some(5), Some(6), Some(7), Some(0), Some(1)]
    );
    assert_eq!(synthesizer.voices().active_count(), 8);
    assert_eq!(keys(&synthesizer), vec![62, 63, 64, 65, 66, 67, 68, 69]);
    assert_eq!(synthesizer.voices().voice(0).started_at, 8);
    assert_eq!(synthesizer.voices().voice(1).started_at, 9);
    assert_eq!(synthesizer.voices().voice(2).started_at, 2);
}

#[test]
fn a_note_on_a_key_that_the_font_leaves_out_starts_no_voice() {
    let settings = SynthesizerSettings::new(44100);
    let mut synthesizer = Synthesizer::new(font(&[(0, 0)], (40, 50)), &settings).ok().unwrap();
    assert!(synthesizer.note_on(0, 60, 100).is_none());
    assert!(synthesizer
        .process_midi_message(0, ChannelMessage::NoteOn { key: 60, vel: 100 })
        .is_none());
    assert_eq!(synthesizer.voices().active_count(), 0);
    assert!(synthesizer.note_on(0, 45, 100).is_some());
}

#[test]
fn voices_left_are_those_that_sounded_less_those_that_ended() {
    let mut synthesizer = synthesizer(&[(0, 0)], 8);
    for note in 0..6 {
        play(&mut synthesizer, note % 3, 60 + note);
    }
    render(&mut synthesizer, 1);
    assert_eq!(synthesizer.voices().active_count(), 6);
    synthesizer.note_off_all_channel(1, true);
    render(&mut synthesizer, 1);
    assert_eq!(synthesizer.voices().active_count(), 4);
    assert_eq!(keys(&synthesizer), vec![60, 62, 63, 65]);
}

#[test]
fn messages_are_passed_to_the_channel() {
    let mut synthesizer = synthesizer(&[(0, 0)], 8);
    synthesizer.process_midi_message(2, ChannelMessage::Controller { controller: 7, value: 90 });
    synthesizer.process_midi_message(2, ChannelMessage::Controller { controller: 39, value: 9 });
    synthesizer.process_midi_message(2, ChannelMessage::Controller { controller: 10, value: 1 });
    synthesizer.process_midi_message(2, ChannelMessage::Controller { controller: 91, value: 77 });
    synthesizer.process_midi_message(2, ChannelMessage::Controller { controller: 101, value: 0 });
    synthesizer.process_midi_message(2, ChannelMessage::Controller { controller: 100, value: 0 });
    synthesizer.process_midi_message(2, ChannelMessage::Controller { controller: 6, value: 12 });
    synthesizer.process_midi_message(2, ChannelMessage::PitchBend { bend: 0x3000 });
    synthesizer.process_midi_message(2, ChannelMessage::Aftertouch { key: 1, vel: 1 });
    synthesizer.process_midi_message(2, ChannelMessage::ChannelAftertouch { vel: 1 });
    let channel = synthesizer.channel(2);
    assert_eq!(channel.volume, (90 << 7) | 9);
    assert_eq!(channel.pan, 1 << 7);
    assert_eq!(channel.reverb_send, 77);
    assert_eq!(channel.rpn, 0);
    assert_eq!(channel.last_data_type, DataType::Rpn);
    assert_eq!(channel.get_pitch_bend_range(), 1200);
    assert_eq!(channel.pitch_bend, 0x1000);
    assert_eq!(channel.get_pitch_bend(), 1200 * 0x1000);
    assert_eq!(synthesizer.channel(1).volume, 100 << 7);
    synthesizer.process_midi_message(2, ChannelMessage::Controller { controller: 121, value: 0 });
    assert_eq!(synthesizer.channel(2).pitch_bend, 0);
    assert_eq!(synthesizer.channel(2).volume, (90 << 7) | 9);
}

#[test]
fn note_off_message_releases_the_key() {
    let mut synthesizer = synthesizer(&[(0, 0)], 8);
    play(&mut synthesizer, 0, 60);
    play(&mut synthesizer, 1, 60);
    synthesizer.process_midi_message(1, ChannelMessage::NoteOff { key: 60, vel: 0 });
    assert_eq!(states(&synthesizer), vec![VoiceState::Playing, VoiceState::ReleaseRequested]);
    render(&mut synthesizer, 100);
    assert_eq!(states(&synthesizer), vec![VoiceState::Playing, VoiceState::Released]);
}

#[test]
fn all_sound_off_silences_the_channel_at_once() {
    let mut synthesizer = synthesizer(&[(0, 0)], 8);
    play(&mut synthesizer, 0, 60);
    play(&mut synthesizer, 1, 61);
    play(&mut synthesizer, 0, 62);
    synthesizer.process_midi_message(0, ChannelMessage::Controller { controller: 120, value: 0 });
    render(&mut synthesizer, 1);
    assert_eq!(keys(&synthesizer), vec![61]);
}

#[test]
fn all_notes_off_graceful() {
    let mut synthesizer = synthesizer(&[(0, 0)], 8);
    synthesizer.process_midi_message(0, ChannelMessage::Controller { controller: 64, value: 127 });
    for key in [60, 64, 67] {
        play(&mut synthesizer, 0, key);
    }
    render(&mut synthesizer, 200);
    synthesizer.process_midi_message(0, ChannelMessage::Controller { controller: 123, value: 0 });
    for _ in 0..200 {
        render(&mut synthesizer, 1);
        assert_eq!(states(&synthesizer), vec![VoiceState::ReleaseRequested; 3]);
        for i in 0..3 {
            assert_eq!(synthesizer.voices().voice(i).vol_env.stage, EnvelopeStage::DECAY);
        }
    }
    synthesizer.process_midi_message(0, ChannelMessage::Controller { controller: 64, value: 63 });
    render(&mut synthesizer, 1);
    assert_eq!(states(&synthesizer), vec![VoiceState::Released; 3]);
    for i in 0..3 {
        assert_eq!(synthesizer.voices().voice(i).vol_env.stage, EnvelopeStage::RELEASE);
    }
}

#[test]
fn note_off_all_lets_go_or_silences() {
    let mut synthesizer = synthesizer(&[(0, 0)], 8);
    play(&mut synthesizer, 0, 60);
    play(&mut synthesizer, 5, 61);
    synthesizer.note_off_all(false);
    assert_eq!(states(&synthesizer), vec![VoiceState::ReleaseRequested; 2]);
    render(&mut synthesizer, 1);
    assert_eq!(synthesizer.voices().active_count(), 2);
    synthesizer.note_off_all(true);
    render(&mut synthesizer, 1);
    assert_eq!(synthesizer.voices().active_count(), 0);
}

#[test]
fn note_off_all_channel_keeps_the_other_channels() {
    let mut synthesizer = synthesizer(&[(0, 0)], 8);
    play(&mut synthesizer, 0, 60);
    play(&mut synthesizer, 5, 61);
    synthesizer.note_off_all_channel(5, false);
    assert_eq!(states(&synthesizer), vec![VoiceState::Playing, VoiceState::ReleaseRequested]);
    synthesizer.note_off_all_channel(0, true);
    render(&mut synthesizer, 1);
    assert_eq!(keys(&synthesizer), vec![61]);
}

#[test]
fn reset_frees_the_voices_and_resets_the_channels() {
    let mut synthesizer = synthesizer(&[(0, 0)], 8);
    play(&mut synthesizer, 0, 60);
    synthesizer.process_midi_message(4, ChannelMessage::Controller { controller: 7, value: 1 });
    synthesizer.process_midi_message(4, ChannelMessage::Controller { controller: 1, value: 1 });
    synthesizer.reset_all_controllers();
    assert_eq!(synthesizer.channel(4).modulation, 0);
    assert_eq!(synthesizer.channel(4).volume, 1 << 7);
    synthesizer.process_midi_message(4, ChannelMessage::Controller { controller: 1, value: 1 });
    synthesizer.reset_all_controllers_channel(3);
    assert_eq!(synthesizer.channel(4).modulation, 1 << 7);
    synthesizer.reset_all_controllers_channel(4);
    assert_eq!(synthesizer.channel(4).modulation, 0);
    synthesizer.reset();
    assert_eq!(synthesizer.voices().active_count(), 0);
    assert_eq!(synthesizer.channel(4).volume, 100 << 7);
}

#[test]
fn the_sequencer_passes_events_on_when_they_are_due() {
    let tracks = vec![
        vec![
            TrackEvent { delta: 0, kind: TrackEventKind::Tempo(500_000) },
            TrackEvent { delta: 480, kind: TrackEventKind::Tempo(1_000_000) },
        ],
        vec![
            TrackEvent {
                delta: 0,
                kind: TrackEventKind::Midi {
                    channel: 1,
                    message: ChannelMessage::Controller { controller: 7, value: 5 },
                },
            },
            TrackEvent {
                delta: 0,
                kind: TrackEventKind::Midi {
                    channel: 1,
                    message: ChannelMessage::ProgramChange { program: 1 },
                },
            },
            TrackEvent {
                delta: 960,
                kind: TrackEventKind::Midi {
                    channel: 1,
                    message: ChannelMessage::NoteOn { key: 60, vel: 100 },
                },
            },
        ],
    ];
    let file = MidiFile::from_tracks(480, &tracks);
    let mut synthesizer = synthesizer(&[(0, 0), (0, 1)], 8);
    play(&mut synthesizer, 0, 60);
    let mut sequencer = MidiFileSequencer::new(synthesizer, file);
    assert_eq!(sequencer.get_synthesizer().voices().active_count(), 0);
    assert_eq!(sequencer.get_synthesizer().voices().capacity(), 8);
    assert_eq!(sequencer.get_synthesizer().voices().voice(0).key, 60);
    assert_eq!(sequencer.get_synthesizer().channel(3).volume, 100 << 7);
    assert_eq!(sequencer.get_midi_file().len(), 3);
    assert_eq!(sequencer.get_midi_file().ticks_per_beat(), 480);
    assert!(!sequencer.end_of_sequence());
    assert_eq!(sequencer.get_position(), 0);

    let (passed, request) = sequencer.process_event();
    assert!(passed);
    assert!(request.is_none());
    assert_eq!(sequencer.get_synthesizer().channel(1).volume, 5 << 7);
    let (passed, _) = sequencer.process_event();
    assert!(passed);
    assert_eq!(sequencer.get_synthesizer().channel(1).get_patch_number(), 1);
    let (passed, request) = sequencer.process_event();
    assert!(!passed);
    assert!(request.is_none());

    for _ in 0..66149 {
        sequencer.tick();
    }
    assert_eq!(sequencer.get_position(), 66149);
    assert!(!sequencer.process_event().0);
    sequencer.tick();
    let (passed, request) = sequencer.process_event();
    assert!(passed);
    let request = request.unwrap();
    assert_eq!((request.channel, request.key, request.velocity), (1, 60, 100));
    assert_eq!(request.region.get_root_key(), 1);
    assert_eq!(sequencer.synthesizer_mut().start_voice(&request, &timing()), Some(0));
    assert_eq!(sequencer.get_synthesizer().voices().active_count(), 1);
    assert!(sequencer.end_of_sequence());
    assert!(!sequencer.process_event().0);
    sequencer.stop();
    assert_eq!(sequencer.get_synthesizer().voices().active_count(), 0);
    assert!(sequencer.end_of_sequence());
}

#[test]
fn an_empty_file_is_at_its_end() {
    let file = MidiFile::from_tracks(480, &vec![]);
    let mut sequencer = MidiFileSequencer::new(synthesizer(&[(0, 0)], 8), file);
    assert!(sequencer.end_of_sequence());
    assert_eq!(sequencer.process_event().0, false);
}

#[test]
fn play_starts_another_file() {
    let first = MidiFile::from_tracks(
        480,
        &vec![vec![TrackEvent {
            delta: 0,
            kind: TrackEventKind::Midi {
                channel: 0,
                message: ChannelMessage::ProgramChange { program: 1 },
            },
        }]],
    );
    let second = MidiFile::from_tracks(
        96,
        &vec![vec![TrackEvent {
            delta: 0,
            kind: TrackEventKind::Midi {
                channel: 0,
                message: ChannelMessage::Controller { controller: 7, value: 3 },
            },
        }]],
    );
    let mut sequencer = MidiFileSequencer::new(synthesizer(&[(0, 0)], 8), first);
    assert!(sequencer.process_event().0);
    sequencer.tick();
    assert!(sequencer.end_of_sequence());
    sequencer.play(second);
    assert!(!sequencer.end_of_sequence());
    assert_eq!(sequencer.get_position(), 0);
    assert_eq!(sequencer.get_synthesizer().channel(0).get_patch_number(), 0);
    assert!(sequencer.process_event().0);
    assert_eq!(sequencer.get_synthesizer().channel(0).volume, 3 << 7);
}

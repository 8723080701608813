use rustysynth::error::SoundFontError;
use rustysynth::generator_type;
use rustysynth::region_pair::RegionPair;
use rustysynth::soundfont::{
    Instrument, InstrumentRegion, Preset, PresetRegion, SoundFont, SoundFontProc,
};
use rustysynth::LoopMode;

fn preset_region(instrument: usize, keys: (i32, i32), velocities: (i32, i32)) -> PresetRegion {
    PresetRegion {
        gs: [0; 58],
        key_range_start: keys.0,
        key_range_end: keys.1,
        velocity_range_start: velocities.0,
        velocity_range_end: velocities.1,
        instrument,
    }
}

fn instrument_region(keys: (i32, i32), velocities: (i32, i32), root_key: i32) -> InstrumentRegion {
    InstrumentRegion {
        gs: [0; 58],
        key_range_start: keys.0,
        key_range_end: keys.1,
        velocity_range_start: velocities.0,
        velocity_range_end: velocities.1,
        sample_start: 2,
        sample_end: 6,
        sample_start_loop: 3,
        sample_end_loop: 5,
        sample_sample_rate: 22050,
        root_key,
        sample_pitch_correction: 0,
        sample_modes: LoopMode::NoLoop,
        exclusive_class: 0,
    }
}

fn preset(bank: i32, patch: i32, regions: Vec<PresetRegion>) -> Preset {
    Preset { name: format!("{}:{}", bank, patch), bank_number: bank, patch_number: patch, regions }
}

fn instrument(regions: Vec<InstrumentRegion>) -> Instrument {
    Instrument { name: String::from("instrument"), regions }
}

/// A font in which preset `i` plays instrument `i`, whose only region has
/// root key `i`.
fn font_of(ids: &[(i32, i32)]) -> SoundFontProc {
    let mut presets = Vec::new();
    let mut instruments = Vec::new();
    for (i, (bank, patch)) in ids.iter().enumerate() {
        presets.push(preset(*bank, *patch, vec![preset_region(i, (0, 127), (0, 127))]));
        instruments.push(instrument(vec![instrument_region((0, 127), (0, 127), i as i32)]));
    }
    let font = SoundFont { presets, instruments, wave_data: vec![0, 1, 2, 3, 4, 5, 6, 7] };
    assert_eq!(font.validate(), Ok(()));
    SoundFontProc::new(font)
}

fn resolved(font: &SoundFontProc, bank: i32, patch: i32) -> Option<i32> {
    font.get_regions(bank, patch, 60, 100).map(|pair: RegionPair| pair.get_root_key())
}

#[test]
fn a_preset_is_found_by_bank_and_patch() {
    let font = font_of(&[(0, 0), (0, 17), (1, 17), (128, 0), (128, 25)]);
    assert_eq!(resolved(&font, 0, 0), Some(0));
    assert_eq!(resolved(&font, 0, 17), Some(1));
    assert_eq!(resolved(&font, 1, 17), Some(2));
    assert_eq!(resolved(&font, 128, 0), Some(3));
    assert_eq!(resolved(&font, 128, 25), Some(4));
}

#[test]
fn gm_fallback() {
    let font = font_of(&[(0, 0), (128, 0)]);
    assert_eq!(resolved(&font, 0, 17), Some(0));
    assert_eq!(resolved(&font, 128, 25), Some(1));
}

#[test]
fn a_missing_bank_falls_back_to_bank_zero() {
    let font = font_of(&[(0, 0), (0, 17), (128, 0)]);
    assert_eq!(resolved(&font, 5, 17), Some(1));
    assert_eq!(resolved(&font, 127, 17), Some(1));
    assert_eq!(resolved(&font, 5, 18), Some(0));
}

#[test]
fn a_missing_drum_set_falls_back_to_the_standard_set() {
    let font = font_of(&[(0, 0), (0, 25), (128, 0)]);
    assert_eq!(resolved(&font, 128, 25), Some(2));
    assert_eq!(resolved(&font, 129, 25), Some(2));
    assert_eq!(resolved(&font, 200, 0), Some(2));
}

#[test]
fn gm_fallback_to_drums() {
    let font = font_of(&[(128, 0)]);
    assert_eq!(resolved(&font, 128, 0), Some(0));
    assert_eq!(resolved(&font, 128, 38), Some(0));
    assert_eq!(resolved(&font, 0, 0), Some(0));
}

#[test]
fn the_default_preset_is_the_first_with_the_smallest_number() {
    let font = font_of(&[(3, 1), (1, 9), (2, 0), (1, 9)]);
    assert_eq!(resolved(&font, 0, 100), Some(1));
    assert_eq!(resolved(&font, 128, 100), Some(1));
}

#[test]
fn of_two_presets_with_one_number_the_last_is_found() {
    let font = font_of(&[(0, 5), (0, 5), (0, 6)]);
    assert_eq!(resolved(&font, 0, 5), Some(1));
}

#[test]
fn the_first_matching_pair_of_regions_is_taken() {
    let presets = vec![preset(
        0,
        0,
        vec![
            preset_region(0, (0, 59), (0, 127)),
            preset_region(1, (0, 127), (0, 127)),
            preset_region(2, (0, 127), (0, 127)),
        ],
    )];
    let instruments = vec![
        instrument(vec![instrument_region((0, 127), (0, 127), 10)]),
        instrument(vec![
            instrument_region((0, 127), (0, 50), 20),
            instrument_region((61, 127), (0, 127), 21),
            instrument_region((60, 60), (100, 100), 22),
            instrument_region((0, 127), (0, 127), 23),
        ]),
        instrument(vec![instrument_region((0, 127), (0, 127), 30)]),
    ];
    let font = SoundFontProc::new(SoundFont { presets, instruments, wave_data: vec![0; 8] });
    let root = |key: i32, velocity: i32| {
        font.get_regions(0, 0, key, velocity).map(|pair| pair.get_root_key())
    };
    assert_eq!(root(59, 100), Some(10));
    assert_eq!(root(60, 100), Some(22));
    assert_eq!(root(60, 50), Some(20));
    assert_eq!(root(61, 51), Some(21));
    assert_eq!(root(60, 99), Some(23));
}

#[test]
fn a_preset_region_without_matching_instrument_region_is_passed_over() {
    let presets = vec![preset(
        0,
        0,
        vec![preset_region(0, (0, 127), (0, 127)), preset_region(1, (0, 127), (0, 127))],
    )];
    let instruments = vec![
        instrument(vec![instrument_region((0, 10), (0, 127), 1)]),
        instrument(vec![instrument_region((0, 127), (0, 127), 2)]),
    ];
    let font = SoundFontProc::new(SoundFont { presets, instruments, wave_data: vec![0; 8] });
    assert_eq!(font.get_regions(0, 0, 60, 100).map(|pair| pair.get_root_key()), Some(2));
}

#[test]
fn nothing_is_found_where_no_region_covers_the_key() {
    let presets = vec![preset(0, 0, vec![preset_region(0, (1, 0), (0, 127))])];
    let instruments = vec![instrument(vec![instrument_region((0, 127), (0, 127), 1)])];
    let font = SoundFontProc::new(SoundFont { presets, instruments, wave_data: vec![0; 8] });
    assert!(font.get_regions(0, 0, 60, 100).is_none());
    assert!(font.get_regions(0, 0, 0, 100).is_none());
    assert!(font.get_regions(7, 7, 1, 100).is_none());
}

#[test]
fn rectangles_include_their_edges() {
    let region = preset_region(0, (10, 20), (30, 40));
    assert!(region.contains(10, 30));
    assert!(region.contains(20, 40));
    assert!(!region.contains(9, 30));
    assert!(!region.contains(21, 30));
    assert!(!region.contains(10, 29));
    assert!(!region.contains(10, 41));
    let region = instrument_region((10, 20), (30, 40), 0);
    assert!(region.contains(10, 30));
    assert!(region.contains(20, 40));
    assert!(!region.contains(9, 30));
    assert!(!region.contains(10, 41));
}

#[test]
fn the_pair_shares_the_pool_and_knows_its_window() {
    let font = font_of(&[(0, 0)]);
    let pair = font.get_regions(0, 0, 60, 100).unwrap();
    let window = pair.get_wave_data();
    assert_eq!(window.start, 2);
    assert_eq!(window.end, 6);
    assert_eq!(window.len(), 4);
    assert_eq!(*window.index(0), 2);
    assert_eq!(*window.data, vec![0, 1, 2, 3, 4, 5, 6, 7]);
    assert_eq!(font.wave_data(), &vec![0, 1, 2, 3, 4, 5, 6, 7]);
}

#[test]
fn generators_add_up() {
    let mut from_preset = preset_region(0, (0, 127), (0, 127));
    let mut from_instrument = instrument_region((0, 127), (0, 127), 64);
    from_preset.gs[generator_type::INITIAL_FILTER_CUTOFF_FREQUENCY] = 1000;
    from_instrument.gs[generator_type::INITIAL_FILTER_CUTOFF_FREQUENCY] = 12500;
    from_preset.gs[generator_type::PAN] = -300;
    from_instrument.gs[generator_type::PAN] = 100;
    from_preset.gs[generator_type::FINE_TUNE] = 7;
    from_instrument.gs[generator_type::FINE_TUNE] = -2;
    from_instrument.sample_pitch_correction = 30;
    from_preset.gs[generator_type::ATTACK_VOLUME_ENVELOPE] = i16::MAX;
    from_instrument.gs[generator_type::ATTACK_VOLUME_ENVELOPE] = i16::MAX;
    from_preset.gs[generator_type::RELEASE_VOLUME_ENVELOPE] = i16::MIN;
    from_instrument.gs[generator_type::RELEASE_VOLUME_ENVELOPE] = i16::MIN;
    from_instrument.gs[generator_type::EXCLUSIVE_CLASS] = 9;
    from_instrument.exclusive_class = 9;
    let font = SoundFontProc::new(SoundFont {
        presets: vec![preset(0, 0, vec![from_preset])],
        instruments: vec![instrument(vec![from_instrument])],
        wave_data: vec![0; 8],
    });
    let pair = font.get_regions(0, 0, 60, 100).unwrap();
    assert_eq!(pair.get_initial_filter_cutoff_frequency(), 13500);
    assert_eq!(pair.get_pan(), -200);
    assert_eq!(pair.get_fine_tune(), 35);
    assert_eq!(pair.get_attack_volume_envelope(), 65534);
    assert_eq!(pair.get_release_volume_envelope(), -65536);
    assert_eq!(pair.gs(generator_type::EXCLUSIVE_CLASS), 9);
    assert_eq!(pair.get_exclusive_class(), 9);
    assert_eq!(pair.get_reverb_effects_send(), 0);
    assert_eq!(pair.sample_sample_rate(), 22050);
    assert_eq!(pair.get_sample_start(), 2);
    assert_eq!(pair.get_sample_end(), 6);
    assert_eq!(pair.get_sample_start_loop(), 3);
    assert_eq!(pair.get_sample_end_loop(), 5);
    assert_eq!(pair.get_root_key(), 64);
    assert_eq!(pair.get_sample_modes(), LoopMode::NoLoop);
}

#[test]
fn key_scaling_counts_from_key_60() {
    assert_eq!(RegionPair::key_number_to_timecents(100, 60), 0);
    assert_eq!(RegionPair::key_number_to_timecents(100, 48), 1200);
    assert_eq!(RegionPair::key_number_to_timecents(100, 72), -1200);
    assert_eq!(RegionPair::key_number_to_timecents(-50, 0), -3000);
    assert_eq!(
        RegionPair::key_number_to_timecents(i32::MIN, i32::MIN),
        (i32::MIN as i64) * (60 - i32::MIN as i64)
    );
}

#[test]
fn a_font_without_presets_is_refused() {
    let font = SoundFont { presets: vec![], instruments: vec![], wave_data: vec![] };
    assert_eq!(font.validate(), Err(SoundFontError::PresetNotFound));
}

#[test]
fn a_missing_instrument_is_reported() {
    let font = SoundFont {
        presets: vec![
            preset(0, 0, vec![preset_region(0, (0, 127), (0, 127))]),
            preset(
                0,
                1,
                vec![
                    preset_region(1, (0, 127), (0, 127)),
                    preset_region(7, (0, 127), (0, 127)),
                    preset_region(9, (0, 127), (0, 127)),
                ],
            ),
            preset(0, 2, vec![preset_region(5, (0, 127), (0, 127))]),
        ],
        instruments: vec![instrument(vec![]), instrument(vec![])],
        wave_data: vec![],
    };
    assert_eq!(
        font.validate(),
        Err(SoundFontError::InvalidInstrumentId { preset_id: 1, instrument_id: 7 })
    );
}

use rustysynth::oscillator::{Oscillator, View, FRAC_UNIT};
use rustysynth::LoopMode;
use std::sync::Arc;

const HALF: i64 = FRAC_UNIT / 2;

#[test]
fn view_counts_its_samples() {
    let view = View { data: Arc::new(vec![1i16, 2, 3, 4, 5]), start: 1, end: 4 };
    assert_eq!(view.len(), 3);
    assert_eq!(*view.index(0), 2);
    assert_eq!(*view.index(2), 4);
}

#[test]
fn start_moves_to_the_first_frame() {
    let mut oscillator = Oscillator::new();
    oscillator.start(LoopMode::Continuous, 22050, 3, 10, 5, 8, 60, -7);
    assert_eq!(oscillator.position_fp, 3 * FRAC_UNIT);
    assert!(oscillator.looping);
    assert_eq!(oscillator.sample_sample_rate, 22050);
    assert_eq!(oscillator.root_key, 60);
    assert_eq!(oscillator.fine_tune, -7);
    oscillator.start(LoopMode::NoLoop, 22050, 0, 10, 5, 8, 60, 0);
    assert!(!oscillator.looping);
    oscillator.start(LoopMode::LoopUntilNoteOff, 22050, 0, 10, 5, 8, 60, 0);
    assert!(oscillator.looping);
}

#[test]
fn render_interpolates_between_two_samples() {
    let data = [0i16, 1000, 2000, -2000, 0];
    let mut oscillator = Oscillator::new();
    oscillator.start(LoopMode::NoLoop, 44100, 0, 3, 0, 0, 60, 0);
    assert_eq!(oscillator.render(&data, HALF), Some(0));
    assert_eq!(oscillator.render(&data, HALF), Some(HALF * 1000));
    assert_eq!(oscillator.render(&data, HALF), Some(1000 * FRAC_UNIT));
    assert_eq!(oscillator.render(&data, HALF), Some(1000 * FRAC_UNIT + HALF * 1000));
    assert_eq!(oscillator.render(&data, HALF), Some(2000 * FRAC_UNIT));
    assert_eq!(oscillator.render(&data, HALF), Some(2000 * FRAC_UNIT + HALF * -4000));
    assert_eq!(oscillator.position_fp, 3 * FRAC_UNIT);
    assert_eq!(oscillator.render(&data, HALF), None);
    assert_eq!(oscillator.position_fp, 3 * FRAC_UNIT);
}

#[test]
fn a_loop_is_run_through_again_and_again() {
    let data = [10i16, 20, 30, 40, 50, 60];
    let mut oscillator = Oscillator::new();
    oscillator.start(LoopMode::Continuous, 44100, 0, 5, 1, 4, 60, 0);
    let mut heard = Vec::new();
    for _ in 0..9 {
        heard.push(oscillator.render(&data, FRAC_UNIT).map(|sample| sample / FRAC_UNIT));
    }
    assert_eq!(
        heard,
        vec![
            Some(10),
            Some(20),
            Some(30),
            Some(40),
            Some(20),
            Some(30),
            Some(40),
            Some(20),
            Some(30)
        ]
    );
}

#[test]
fn the_last_sample_of_a_loop_leads_to_its_first() {
    let data = [10i16, 20, 30, 40, 50, 60];
    let mut oscillator = Oscillator::new();
    oscillator.start(LoopMode::Continuous, 44100, 0, 5, 1, 4, 60, 0);
    oscillator.position_fp = 3 * FRAC_UNIT + HALF;
    assert_eq!(oscillator.render(&data, 0), Some(40 * FRAC_UNIT + HALF * (20 - 40)));
}

#[test]
fn a_loop_until_note_off_ends_with_the_release() {
    let data = [10i16, 20, 30, 40, 50, 60];
    let mut oscillator = Oscillator::new();
    oscillator.start(LoopMode::LoopUntilNoteOff, 44100, 0, 5, 1, 4, 60, 0);
    for _ in 0..5 {
        oscillator.render(&data, FRAC_UNIT);
    }
    oscillator.release();
    assert!(!oscillator.looping);
    let mut heard = Vec::new();
    for _ in 0..5 {
        heard.push(oscillator.render(&data, FRAC_UNIT).map(|sample| sample / FRAC_UNIT));
    }
    assert_eq!(heard, vec![Some(30), Some(40), Some(50), None, None]);
}

#[test]
fn a_continuous_loop_outlasts_the_release() {
    let mut oscillator = Oscillator::new();
    oscillator.start(LoopMode::Continuous, 44100, 0, 5, 1, 4, 60, 0);
    oscillator.release();
    assert!(oscillator.looping);
}

#[test]
fn nothing_is_read_beyond_the_pool() {
    let data = [1i16, 2, 3];
    let mut oscillator = Oscillator::new();
    oscillator.start(LoopMode::NoLoop, 44100, 0, 10, 0, 0, 60, 0);
    assert_eq!(oscillator.render(&data, FRAC_UNIT), Some(FRAC_UNIT));
    assert_eq!(oscillator.render(&data, FRAC_UNIT), Some(2 * FRAC_UNIT));
    assert_eq!(oscillator.render(&data, FRAC_UNIT), None);
    oscillator.position_fp = -1;
    assert_eq!(oscillator.render(&data, FRAC_UNIT), None);
    oscillator.start(LoopMode::Continuous, 44100, 0, 10, 9, 2, 60, 0);
    oscillator.position_fp = 2 * FRAC_UNIT;
    assert_eq!(oscillator.render(&data, FRAC_UNIT), None);
}

#[test]
fn the_step_saturates() {
    let data = [1i16, 2, 3];
    let mut oscillator = Oscillator::new();
    oscillator.start(LoopMode::NoLoop, 44100, 0, 2, 0, 0, 60, 0);
    oscillator.position_fp = FRAC_UNIT;
    assert_eq!(oscillator.render(&data, i64::MAX), Some(2 * FRAC_UNIT));
    assert_eq!(oscillator.position_fp, i64::MAX);
    oscillator.position_fp = FRAC_UNIT;
    assert_eq!(oscillator.render(&data, i64::MIN), Some(2 * FRAC_UNIT));
    assert_eq!(oscillator.position_fp, i64::MIN + FRAC_UNIT);
}

//! Sample playback at a fixed-point position.

use crate::LoopMode;
use std::sync::Arc;
use vstd::prelude::*;
use vstd::view::View as _;

verus! {

/// The number of fraction bits of a fixed-point sample position.
pub const FRAC_BITS: i32 = 24;

/// One whole sample in fixed point.
pub const FRAC_UNIT: i64 = 0x100_0000;

/// A window into a shared pool of samples.
#[derive(Clone, Debug)]
pub struct View<T> {
    pub data: Arc<Vec<T>>,
    pub start: usize,
    pub end: usize,
}

impl<T> View<T> {
    /// The window lies within the pool.
    pub open spec fn valid(&self) -> bool {
        self.start <= self.end <= self.data@.len()
    }

    /// The samples of the window.
    pub open spec fn view(&self) -> Seq<T> {
        self.data@.subrange(self.start as int, self.end as int)
    }

    /// The number of samples in the window.
    pub fn len(&self) -> (length: usize)
        requires
            self.start <= self.end,
        ensures
            length == self.end - self.start,
    {
        self.end - self.start
    }

    /// The sample at `index`, counted from the start of the window.
    pub fn index(&self, index: usize) -> (sample: &T)
        requires
            self.valid(),
            index < self.end - self.start,
        ensures
            *sample == self@[index as int],
    {
        &self.data[self.start + index]
    }
}

/// Plays a sample at a variable rate.
///
/// The position is a fixed-point number: the lower 24 bits are the fraction
/// of a sample, the rest is the index of the sample in the pool.
#[derive(Clone, Copy, Debug)]
pub struct Oscillator {
    pub loop_mode: LoopMode,
    pub sample_sample_rate: i32,
    pub start: i32,
    pub end: i32,
    pub start_loop: i32,
    pub end_loop: i32,
    pub root_key: i32,
    /// In cents.
    pub fine_tune: i64,
    pub looping: bool,
    pub position_fp: i64,
}

/// `value` where it fits 64 bits, else the nearest number that does.
pub open spec fn saturated(value: int) -> i64 {
    if value > i64::MAX {
        i64::MAX
    } else if value < i64::MIN {
        i64::MIN
    } else {
        value as i64
    }
}

impl Oscillator {
    /// The position from which the next sample is read: where the loop has
    /// been run through to its end, one loop length back.
    pub open spec fn wrapped_position(&self) -> int {
        if self.looping && self.position_fp >= self.end_loop * FRAC_UNIT {
            self.position_fp - (self.end_loop - self.start_loop) * FRAC_UNIT
        } else {
            self.position_fp as int
        }
    }

    /// The index of the sample at or before the position.
    pub open spec fn first_index(&self) -> int {
        self.wrapped_position() / (FRAC_UNIT as int)
    }

    /// The index of the sample after it, which lies at the start of the loop
    /// where the first is the last of the loop.
    pub open spec fn second_index(&self) -> int {
        if self.looping && self.first_index() + 1 >= self.end_loop {
            self.first_index() + 1 - (self.end_loop - self.start_loop)
        } else {
            self.first_index() + 1
        }
    }

    /// Both samples around the position can be read from a pool of `len`
    /// samples, and a sample that is not looping has not run past its end.
    pub open spec fn in_reach(&self, len: int) -> bool {
        &&& 0 <= self.wrapped_position()
        &&& self.looping || self.first_index() < self.end
        &&& self.first_index() < len
        &&& 0 <= self.second_index() < len
    }

    /// The linear interpolation of the two samples around the position, in
    /// units of 1/2^24 of a sample step.
    pub open spec fn interpolated(&self, data: Seq<i16>) -> int {
        let x1 = data[self.first_index()] as int;
        let x2 = data[self.second_index()] as int;
        let fraction = self.wrapped_position() % (FRAC_UNIT as int);
        x1 * FRAC_UNIT + fraction * (x2 - x1)
    }

    /// An oscillator that has nothing to play.
    pub fn new() -> (oscillator: Self)
        ensures
            oscillator == (Oscillator {
                loop_mode: LoopMode::NoLoop,
                sample_sample_rate: 0,
                start: 0,
                end: 0,
                start_loop: 0,
                end_loop: 0,
                root_key: 0,
                fine_tune: 0,
                looping: false,
                position_fp: 0,
            }),
    {
        Oscillator {
            loop_mode: LoopMode::NoLoop,
            sample_sample_rate: 0,
            start: 0,
            end: 0,
            start_loop: 0,
            end_loop: 0,
            root_key: 0,
            fine_tune: 0,
            looping: false,
            position_fp: 0,
        }
    }

    /// Takes the parameters of a sample and moves to its first frame.
    pub fn start(
        &mut self,
        loop_mode: LoopMode,
        sample_rate: i32,
        start: i32,
        end: i32,
        start_loop: i32,
        end_loop: i32,
        root_key: i32,
        fine_tune: i64,
    )
        ensures
            *final(self) == (Oscillator {
                loop_mode,
                sample_sample_rate: sample_rate,
                start,
                end,
                start_loop,
                end_loop,
                root_key,
                fine_tune,
                looping: loop_mode != LoopMode::NoLoop,
                position_fp: (start * FRAC_UNIT) as i64,
            }),
    {
        self.loop_mode = loop_mode;
        self.sample_sample_rate = sample_rate;
        self.start = start;
        self.end = end;
        self.start_loop = start_loop;
        self.end_loop = end_loop;
        self.root_key = root_key;
        self.fine_tune = fine_tune;
        self.looping = loop_mode != LoopMode::NoLoop;
        self.position_fp = (start as i64) * FRAC_UNIT;
    }

    /// The note was released: a loop that lasts until then ends, and the
    /// sample runs on to its end.
    pub fn release(&mut self)
        ensures
            *final(self) == (Oscillator {
                looping: old(self).looping && old(self).loop_mode != LoopMode::LoopUntilNoteOff,
                ..*old(self)
            }),
    {
        if self.loop_mode == LoopMode::LoopUntilNoteOff {
            self.looping = false;
        }
    }

    /// Reads the sample at the position and moves on by `pitch_ratio_fp`.
    ///
    /// Gives `None`, and changes nothing, once the position has left the
    /// sample or the pool.  The step saturates at the ends of 64 bits.
    pub fn render(&mut self, data: &[i16], pitch_ratio_fp: i64) -> (sample: Option<i64>)
        ensures
            old(self).in_reach(data@.len() as int) ==> sample == Some(
                old(self).interpolated(data@) as i64,
            ) && *final(self) == (Oscillator {
                position_fp: saturated(old(self).wrapped_position() + pitch_ratio_fp),
                ..*old(self)
            }),
            !old(self).in_reach(data@.len() as int) ==> sample is None && *final(self) == *old(
                self,
            ),
    {
        let unit: i128 = FRAC_UNIT as i128;
        let loop_length: i128 = self.end_loop as i128 - self.start_loop as i128;
        let mut position: i128 = self.position_fp as i128;
        if self.looping && position >= (self.end_loop as i128) * unit {
            position = position - loop_length * unit;
        }
        assert(position == self.wrapped_position());
        if position < 0 {
            return None;
        }
        let index1: i128 = position / unit;
        let fraction: i128 = position % unit;
        let mut index2: i128 = index1 + 1;
        if self.looping {
            if index2 >= self.end_loop as i128 {
                index2 = index2 - loop_length;
            }
        } else if index1 >= self.end as i128 {
            return None;
        }
        assert(index1 == self.first_index() && index2 == self.second_index());
        let len: i128 = data.len() as i128;
        if index1 >= len || index2 < 0 || index2 >= len {
            return None;
        }
        let x1: i128 = data[index1 as usize] as i128;
        let x2: i128 = data[index2 as usize] as i128;
        assert(-0x1_0000 * 0x100_0000 <= fraction * (x2 - x1) <= 0x1_0000 * 0x100_0000)
            by (nonlinear_arith)
            requires
                0 <= fraction < 0x100_0000,
                -0x1_0000 <= x2 - x1 <= 0x1_0000,
        ;
        let sample: i128 = x1 * unit + fraction * (x2 - x1);
        let moved: i128 = position + pitch_ratio_fp as i128;
        self.position_fp = if moved > i64::MAX as i128 {
            i64::MAX
        } else if moved < i64::MIN as i128 {
            i64::MIN
        } else {
            moved as i64
        };
        Some(sample as i64)
    }
}

} // verus!

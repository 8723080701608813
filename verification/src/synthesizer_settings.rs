//! The settings of a synthesizer and their ranges.

use vstd::prelude::*;

verus! {

/// Represents an error when initializing a synthesizer.
#[derive(Clone, Copy, Debug, PartialEq, Eq, Structural)]
pub enum SynthesizerError {
    SampleRateOutOfRange(i32),
    BlockSizeOutOfRange(usize),
    MaximumPolyphonyOutOfRange(usize),
}

/// Specifies a set of parameters for synthesis.
#[derive(Clone, Copy, Debug)]
pub struct SynthesizerSettings {
    /// The sample rate for synthesis.
    pub sample_rate: i32,
    /// The block size for rendering waveform.
    pub block_size: usize,
    /// The number of maximum polyphony.
    pub maximum_polyphony: usize,
    /// The value indicating whether reverb and chorus are enabled.
    pub enable_reverb_and_chorus: bool,
}

pub const DEFAULT_BLOCK_SIZE: usize = 64;

pub const DEFAULT_MAXIMUM_POLYPHONY: usize = 64;

pub const DEFAULT_ENABLE_REVERB_AND_CHORUS: bool = true;

impl SynthesizerSettings {
    /// The sample rate lies in the accepted range.
    pub open spec fn sample_rate_in_range(value: int) -> bool {
        16_000 <= value <= 192_000
    }

    /// The block size lies in the accepted range.
    pub open spec fn block_size_in_range(value: int) -> bool {
        8 <= value <= 1024
    }

    /// The polyphony limit lies in the accepted range.
    pub open spec fn maximum_polyphony_in_range(value: int) -> bool {
        8 <= value <= 256
    }

    /// The settings a synthesizer can be built from.
    pub open spec fn valid(&self) -> bool {
        &&& Self::sample_rate_in_range(self.sample_rate as int)
        &&& Self::block_size_in_range(self.block_size as int)
        &&& Self::maximum_polyphony_in_range(self.maximum_polyphony as int)
    }

    /// The error that `validate` reports: the first field out of range, in
    /// the order sample rate, block size, polyphony.
    pub open spec fn first_error(&self) -> Option<SynthesizerError> {
        if !Self::sample_rate_in_range(self.sample_rate as int) {
            Some(SynthesizerError::SampleRateOutOfRange(self.sample_rate))
        } else if !Self::block_size_in_range(self.block_size as int) {
            Some(SynthesizerError::BlockSizeOutOfRange(self.block_size))
        } else if !Self::maximum_polyphony_in_range(self.maximum_polyphony as int) {
            Some(SynthesizerError::MaximumPolyphonyOutOfRange(self.maximum_polyphony))
        } else {
            None
        }
    }

    /// Initializes a new instance of synthesizer settings with the default
    /// block size, polyphony and effects switch.
    pub fn new(sample_rate: i32) -> (settings: Self)
        ensures
            settings.sample_rate == sample_rate,
            settings.block_size == DEFAULT_BLOCK_SIZE,
            settings.maximum_polyphony == DEFAULT_MAXIMUM_POLYPHONY,
            settings.enable_reverb_and_chorus == DEFAULT_ENABLE_REVERB_AND_CHORUS,
    {
        Self {
            sample_rate,
            block_size: DEFAULT_BLOCK_SIZE,
            maximum_polyphony: DEFAULT_MAXIMUM_POLYPHONY,
            enable_reverb_and_chorus: DEFAULT_ENABLE_REVERB_AND_CHORUS,
        }
    }

    /// Checks every field against its range.
    pub fn validate(&self) -> (result: Result<(), SynthesizerError>)
        ensures
            result is Ok <==> self.valid(),
            result matches Err(e) ==> self.first_error() == Some(e),
    {
        Self::check_sample_rate(self.sample_rate)?;
        Self::check_block_size(self.block_size)?;
        Self::check_maximum_polyphony(self.maximum_polyphony)?;
        Ok(())
    }

    /// Checks the sample rate against its range, 16000 to 192000.
    pub fn check_sample_rate(value: i32) -> (result: Result<(), SynthesizerError>)
        ensures
            result == if Self::sample_rate_in_range(value as int) {
                Ok::<(), SynthesizerError>(())
            } else {
                Err(SynthesizerError::SampleRateOutOfRange(value))
            },
    {
        if !(16_000 <= value && value <= 192_000) {
            return Err(SynthesizerError::SampleRateOutOfRange(value));
        }
        Ok(())
    }

    /// Checks the block size against its range, 8 to 1024.
    pub fn check_block_size(value: usize) -> (result: Result<(), SynthesizerError>)
        ensures
            result == if Self::block_size_in_range(value as int) {
                Ok::<(), SynthesizerError>(())
            } else {
                Err(SynthesizerError::BlockSizeOutOfRange(value))
            },
    {
        if !(8 <= value && value <= 1024) {
            return Err(SynthesizerError::BlockSizeOutOfRange(value));
        }
        Ok(())
    }

    /// Checks the polyphony against its range, 8 to 256.
    pub fn check_maximum_polyphony(value: usize) -> (result: Result<(), SynthesizerError>)
        ensures
            result == if Self::maximum_polyphony_in_range(value as int) {
                Ok::<(), SynthesizerError>(())
            } else {
                Err(SynthesizerError::MaximumPolyphonyOutOfRange(value))
            },
    {
        if !(8 <= value && value <= 256) {
            return Err(SynthesizerError::MaximumPolyphonyOutOfRange(value));
        }
        Ok(())
    }
}

} // verus!

//! The errors of loading a SoundFont.

use vstd::prelude::*;

verus! {

/// The four characters that name a chunk of a file, the first in the
/// highest byte.
#[derive(Clone, Copy, Debug, PartialEq, Eq, Structural)]
pub struct FourCC(pub u32);

/// Represents an error when loading a SoundFont.
#[derive(Clone, Copy, Debug, PartialEq, Eq, Structural)]
pub enum SoundFontError {
    /// The bytes end before what was to be read.
    IoError,
    RiffChunkNotFound,
    InvalidRiffChunkType { expected: FourCC, actual: FourCC },
    ListChunkNotFound,
    InvalidListChunkType { expected: FourCC, actual: FourCC },
    ListContainsUnknownId(FourCC),
    SampleDataNotFound,
    UnsupportedSampleFormat,
    SubChunkNotFound(FourCC),
    InvalidPresetList,
    InvalidInstrumentId { preset_id: usize, instrument_id: usize },
    InvalidPreset(usize),
    PresetNotFound,
    InvalidInstrumentList,
    InvalidSampleId { instrument_id: usize, sample_id: usize },
    InvalidInstrument(usize),
    InstrumentNotFound,
    InvalidSampleHeaderList,
    InvalidZoneList,
    ZoneNotFound,
    InvalidGeneratorList,
    SanityCheckFailed,
}

} // verus!

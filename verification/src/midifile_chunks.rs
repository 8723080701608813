//! The chunks of a Standard MIDI File, walked before the parser sees the
//! bytes.  The parser cannot read a header chunk whose timing begins with the
//! byte 0x80, so the loader has to know whether it would come to one.  It
//! reads a header only where a chunk begins, and the data of a track or of
//! any other chunk it passes over by the chunk's length.

use crate::binary_reader::{
    four_cc_at, read_four_cc, read_u32_be, read_u32_le, u32_be_at, u32_le_at,
};
use vstd::prelude::*;

verus! {

/// The id of a header chunk, `MThd`.
pub const MTHD: u32 = 0x4D54_6864;

/// The id of a track chunk, `MTrk`.
pub const MTRK: u32 = 0x4D54_726B;

/// The id of a RIFF file, `RIFF`.
pub const RIFF: u32 = 0x5249_4646;

/// The form of a RIFF file that wraps a MIDI file, `RMID`.
pub const RMID: u32 = 0x524D_4944;

/// The id of the chunk of a RIFF file that holds the MIDI file, `data`.
pub const DATA: u32 = 0x6461_7461;

/// Where the data of a chunk ends whose id and length, four bytes each, begin
/// at `at`: `len` bytes behind them, or at `end` where fewer bytes are left.
pub open spec fn data_end(at: int, len: int, end: int) -> int {
    if len <= end - (at + 8) {
        at + 8 + len
    } else {
        end
    }
}

/// Where the chunk after a chunk of a RIFF file begins: behind its data, and
/// one byte further where its length is odd and a byte is left.
pub open spec fn riff_next(at: int, len: int, end: int) -> int {
    let stop = data_end(at, len, end);
    if len % 2 == 1 && stop < end {
        stop + 1
    } else {
        stop
    }
}

/// Where the data of the first `data` chunk begins and ends, among the
/// chunks of a RIFF file that stand from `at` to `end`.  A chunk needs the
/// eight bytes of its id and its length.
pub open spec fn riff_data(raw: Seq<u8>, at: int, end: int) -> Option<(int, int)>
    decreases end - at,
{
    if end - at < 8 {
        None
    } else if four_cc_at(raw, at) == DATA {
        Some((at + 8, data_end(at, u32_le_at(raw, at + 4), end)))
    } else {
        riff_data(raw, riff_next(at, u32_le_at(raw, at + 4), end), end)
    }
}

/// Where the chunks of the MIDI file begin and end: they are all the bytes
/// where these begin with `MThd`, and the data of the first `data` chunk
/// where the bytes are a RIFF file of the form `RMID`.  Other bytes hold
/// none.
pub open spec fn chunk_range(raw: Seq<u8>) -> Option<(int, int)> {
    if raw.len() < 4 {
        None
    } else if four_cc_at(raw, 0) == MTHD {
        Some((0, raw.len() as int))
    } else if four_cc_at(raw, 0) == RIFF && raw.len() >= 8 {
        let end = data_end(0, u32_le_at(raw, 4), raw.len() as int);
        if end >= 12 && four_cc_at(raw, 8) == RMID {
            riff_data(raw, 12, end)
        } else {
            None
        }
    } else {
        None
    }
}

/// The timing of the header chunk at `at`, whose data ends at `stop`, is
/// read: the data holds the six bytes of a header, and the format, which is
/// the first two of them, is 0, 1 or 2.
pub open spec fn timing_is_read(raw: Seq<u8>, at: int, stop: int) -> bool {
    stop - (at + 8) >= 6 && raw[at + 8] == 0 && raw[at + 9] <= 2
}

/// The first byte of a timing that there is: of ticks per beat, or of a
/// timecode of 24, 25, 29 or 30 frames.
pub open spec fn timing_is_known(first: u8) -> bool {
    first < 0x80 || first == 0xE8 || first == 0xE7 || first == 0xE3 || first == 0xE2
}

/// Among the chunks from `at` to `end`, a header chunk is read whose timing
/// begins with the byte 0x80.
///
/// The chunks are walked by their lengths.  While `first` holds no header
/// has been read yet, and a track chunk ends the walk.  A header chunk that
/// cannot be read ends it too, and so do fewer than eight bytes.
pub open spec fn unreadable_from(raw: Seq<u8>, at: int, end: int, first: bool) -> bool
    decreases end - at,
{
    if end - at < 8 {
        false
    } else {
        let stop = data_end(at, u32_be_at(raw, at + 4), end);
        if four_cc_at(raw, at) == MTHD {
            timing_is_read(raw, at, stop) && (raw[at + 12] == 0x80 || (timing_is_known(
                raw[at + 12],
            ) && unreadable_from(raw, stop, end, false)))
        } else if four_cc_at(raw, at) == MTRK && first {
            false
        } else {
            unreadable_from(raw, stop, end, first)
        }
    }
}

/// A header chunk of the file has a timing that begins with the byte 0x80:
/// a timecode of 128 frames, which does not exist.  Only the header chunks
/// count that are read as such, where a chunk begins; the same bytes in the
/// data of a track or of another chunk are data.
pub open spec fn has_unreadable_timing(raw: Seq<u8>) -> bool {
    match chunk_range(raw) {
        Some((start, end)) => unreadable_from(raw, start, end, true),
        None => false,
    }
}

/// From `at` to `end` there are track chunks and no others.
pub open spec fn tracks_alone(raw: Seq<u8>, at: int, end: int) -> bool
    decreases end - at,
{
    if end - at < 8 {
        true
    } else {
        four_cc_at(raw, at) == MTRK && tracks_alone(
            raw,
            data_end(at, u32_be_at(raw, at + 4), end),
            end,
        )
    }
}

/// Among track chunks no timing is read, whatever the tracks hold.
pub proof fn lemma_tracks_hold_no_timing(raw: Seq<u8>, at: int, end: int)
    requires
        tracks_alone(raw, at, end),
    ensures
        !unreadable_from(raw, at, end, false),
    decreases end - at,
{
    if end - at >= 8 {
        lemma_tracks_hold_no_timing(raw, data_end(at, u32_be_at(raw, at + 4), end), end);
    }
}

/// A file that is a header chunk of six bytes and track chunks behind it is
/// handed to the parser unless the timing of that header begins with 0x80:
/// what the tracks hold, be it the bytes of a header, decides nothing.
pub proof fn lemma_track_data_is_not_looked_at(raw: Seq<u8>)
    requires
        raw.len() >= 14,
        four_cc_at(raw, 0) == MTHD,
        u32_be_at(raw, 4) == 6,
        tracks_alone(raw, 14, raw.len() as int),
    ensures
        has_unreadable_timing(raw) == (raw[8] == 0 && raw[9] <= 2 && raw[12] == 0x80),
{
    lemma_tracks_hold_no_timing(raw, 14, raw.len() as int);
}

/// Where the data of a chunk ends.
fn find_data_end(at: usize, len: u32, end: usize) -> (stop: usize)
    requires
        at + 8 <= end,
    ensures
        stop == data_end(at as int, len as int, end as int),
        at + 8 <= stop <= end,
{
    let room: usize = end - (at + 8);
    if len as usize <= room {
        at + 8 + len as usize
    } else {
        end
    }
}

/// Looks for the first `data` chunk of a RIFF file.
fn find_riff_data(raw: &[u8], from: usize, end: usize) -> (range: Option<(usize, usize)>)
    requires
        from <= end <= raw.len(),
    ensures
        riff_data(raw@, from as int, end as int) == match range {
            Some((start, stop)) => Some((start as int, stop as int)),
            None => None,
        },
        range matches Some((start, stop)) ==> start <= stop <= end,
{
    let mut at: usize = from;
    while end - at >= 8
        invariant
            from <= at <= end <= raw.len(),
            riff_data(raw@, from as int, end as int) == riff_data(raw@, at as int, end as int),
        decreases end - at,
    {
        let id: u32 = read_four_cc(raw, at);
        let len: u32 = read_u32_le(raw, at + 4);
        let stop: usize = find_data_end(at, len, end);
        if id == DATA {
            return Some((at + 8, stop));
        }
        at = if len % 2 == 1 && stop < end {
            stop + 1
        } else {
            stop
        };
    }
    None
}

/// Finds where the chunks of the MIDI file begin and end.
pub fn find_chunk_range(raw: &[u8]) -> (range: Option<(usize, usize)>)
    ensures
        chunk_range(raw@) == match range {
            Some((start, end)) => Some((start as int, end as int)),
            None => None,
        },
        range matches Some((start, end)) ==> start <= end <= raw.len(),
{
    if raw.len() < 4 {
        return None;
    }
    let id: u32 = read_four_cc(raw, 0);
    if id == MTHD {
        Some((0, raw.len()))
    } else if id == RIFF && raw.len() >= 8 {
        let len: u32 = read_u32_le(raw, 4);
        let end: usize = find_data_end(0, len, raw.len());
        if end >= 12 && read_four_cc(raw, 8) == RMID {
            find_riff_data(raw, 12, end)
        } else {
            None
        }
    } else {
        None
    }
}

/// Walks the chunks of the file and says whether a header chunk is read
/// whose timing begins with the byte 0x80.
pub fn find_unreadable_timing(raw: &[u8]) -> (found: bool)
    ensures
        found == has_unreadable_timing(raw@),
{
    let (start, end) = match find_chunk_range(raw) {
        Some(range) => range,
        None => {
            return false;
        },
    };
    let mut at: usize = start;
    let mut first = true;
    while end - at >= 8
        invariant
            at <= end <= raw.len(),
            has_unreadable_timing(raw@) == unreadable_from(raw@, at as int, end as int, first),
        decreases end - at,
    {
        let id: u32 = read_four_cc(raw, at);
        let len: u32 = read_u32_be(raw, at + 4);
        let stop: usize = find_data_end(at, len, end);
        if id == MTHD {
            if !(stop - (at + 8) >= 6 && raw[at + 8] == 0 && raw[at + 9] <= 2) {
                return false;
            }
            let timing: u8 = raw[at + 12];
            if timing == 0x80 {
                return true;
            }
            if !(timing < 0x80 || timing == 0xE8 || timing == 0xE7 || timing == 0xE3 || timing
                == 0xE2) {
                return false;
            }
            first = false;
        } else if id == MTRK && first {
            return false;
        }
        at = stop;
    }
    false
}

} // verus!

//! Reading numbers and texts out of the bytes of a file.

use vstd::prelude::*;
use vstd::slice::slice_subrange;

verus! {

/// The text that `String::from_utf8_lossy` makes of bytes.
pub uninterp spec fn utf8_lossy(bytes: Seq<u8>) -> Seq<char>;

/// `String::from_utf8_lossy`, the result as an owned string.  The text
/// depends on the bytes alone.
#[verifier::external_body]
fn decode_text(bytes: &[u8]) -> (text: String)
    ensures
        text@ == utf8_lossy(bytes@),
{
    String::from_utf8_lossy(bytes).into_owned()
}

/// The four characters at `pos`, the first in the highest byte.
pub open spec fn four_cc_at(data: Seq<u8>, pos: int) -> int {
    data[pos] * 0x100_0000 + data[pos + 1] * 0x1_0000 + data[pos + 2] * 0x100 + data[pos + 3]
}

/// The 32-bit number at `pos`, the lowest byte first, read as signed.
pub open spec fn i32_le_at(data: Seq<u8>, pos: int) -> int {
    let unsigned = data[pos] + data[pos + 1] * 0x100 + data[pos + 2] * 0x1_0000 + data[pos + 3]
        * 0x100_0000;
    if unsigned >= 0x8000_0000 {
        unsigned - 0x1_0000_0000
    } else {
        unsigned
    }
}

/// The 16-bit number at `pos`, the lowest byte first, read as signed.
pub open spec fn i16_le_at(data: Seq<u8>, pos: int) -> int {
    let unsigned = data[pos] + data[pos + 1] * 0x100;
    if unsigned >= 0x8000 {
        unsigned - 0x1_0000
    } else {
        unsigned
    }
}

/// The length of the text in the `size` bytes from `start`: up to the first
/// zero byte, or all of them.
pub open spec fn text_len(data: Seq<u8>, start: int, size: int) -> int
    decreases size,
{
    if size <= 0 || data[start] == 0 {
        0
    } else {
        1 + text_len(data, start + 1, size - 1)
    }
}

/// The 16-bit number at `pos`, the lowest byte first.
pub open spec fn u16_le_at(data: Seq<u8>, pos: int) -> int {
    data[pos] + data[pos + 1] * 0x100
}

pub fn read_u16(data: &[u8], pos: usize) -> (value: u16)
    requires
        pos + 2 <= data@.len(),
    ensures
        value == u16_le_at(data@, pos as int),
{
    let length: usize = data.len();
    (data[pos] as u16) + (data[pos + 1] as u16) * 0x100
}

pub fn read_i16(data: &[u8], pos: usize) -> (value: i16)
    requires
        pos + 2 <= data@.len(),
    ensures
        value == i16_le_at(data@, pos as int),
{
    let length: usize = data.len();
    let unsigned: i32 = (data[pos] as i32) + (data[pos + 1] as i32) * 0x100;
    if unsigned >= 0x8000 {
        (unsigned - 0x1_0000) as i16
    } else {
        unsigned as i16
    }
}

pub fn read_i32(data: &[u8], pos: usize) -> (value: i32)
    requires
        pos + 4 <= data@.len(),
    ensures
        value == i32_le_at(data@, pos as int),
{
    let length: usize = data.len();
    let unsigned: i64 = (data[pos] as i64) + (data[pos + 1] as i64) * 0x100 + (data[pos + 2] as i64)
        * 0x1_0000 + (data[pos + 3] as i64) * 0x100_0000;
    if unsigned >= 0x8000_0000 {
        (unsigned - 0x1_0000_0000) as i32
    } else {
        unsigned as i32
    }
}

pub fn read_four_cc(data: &[u8], pos: usize) -> (id: u32)
    requires
        pos + 4 <= data@.len(),
    ensures
        id == four_cc_at(data@, pos as int),
{
    let length: usize = data.len();
    (data[pos] as u32) * 0x100_0000 + (data[pos + 1] as u32) * 0x1_0000 + (data[pos + 2] as u32)
        * 0x100 + (data[pos + 3] as u32)
}

/// The 32-bit number at `pos`, the highest byte first.
pub open spec fn u32_be_at(data: Seq<u8>, pos: int) -> int {
    data[pos] * 0x100_0000 + data[pos + 1] * 0x1_0000 + data[pos + 2] * 0x100 + data[pos + 3]
}

/// The 32-bit number at `pos`, the lowest byte first.
pub open spec fn u32_le_at(data: Seq<u8>, pos: int) -> int {
    data[pos] + data[pos + 1] * 0x100 + data[pos + 2] * 0x1_0000 + data[pos + 3] * 0x100_0000
}

/// Reads the 32-bit number at `pos`, the highest byte first.
pub fn read_u32_be(data: &[u8], pos: usize) -> (value: u32)
    requires
        pos + 4 <= data@.len(),
    ensures
        value == u32_be_at(data@, pos as int),
{
    let length: usize = data.len();
    (data[pos] as u32) * 0x100_0000 + (data[pos + 1] as u32) * 0x1_0000 + (data[pos + 2] as u32)
        * 0x100 + (data[pos + 3] as u32)
}

/// Reads the 32-bit number at `pos`, the lowest byte first.
pub fn read_u32_le(data: &[u8], pos: usize) -> (value: u32)
    requires
        pos + 4 <= data@.len(),
    ensures
        value == u32_le_at(data@, pos as int),
{
    let length: usize = data.len();
    (data[pos] as u32) + (data[pos + 1] as u32) * 0x100 + (data[pos + 2] as u32) * 0x1_0000 + (
    data[pos + 3] as u32) * 0x100_0000
}

/// The text in the `size` bytes from `start`.
pub fn read_fixed_length_string(data: &[u8], start: usize, size: usize) -> (text: String)
    requires
        start + size <= data@.len(),
    ensures
        text@ == utf8_lossy(
            data@.subrange(start as int, start + text_len(data@, start as int, size as int)),
        ),
{
    let total: usize = data.len();
    let mut length: usize = 0;
    while length < size && data[start + length] != 0
        invariant
            length <= size,
            start + size <= data@.len() == total,
            text_len(data@, start as int, size as int) == length + text_len(
                data@,
                start + length,
                size - length,
            ),
        decreases size - length,
    {
        length += 1;
    }
    decode_text(slice_subrange(data, start, start + length))
}

} // verus!

//! Checked big-endian reads from a byte buffer at a caller-held offset.

use vstd::prelude::*;
use crate::error::ExtabError;

verus! {

/// Whether `width` bytes can be read from `s` starting at `offset`.
pub open spec fn in_bounds(s: Seq<u8>, offset: int, width: int) -> bool {
    0 <= offset && offset + width <= s.len()
}

/// The big-endian 16-bit number in the two bytes of `s` at `offset`.
pub open spec fn be_u16(s: Seq<u8>, offset: int) -> int {
    s[offset] * 0x100 + s[offset + 1]
}

/// The big-endian 32-bit number in the four bytes of `s` at `offset`.
pub open spec fn be_u32(s: Seq<u8>, offset: int) -> int {
    s[offset] * 0x100_0000 + s[offset + 1] * 0x1_0000 + s[offset + 2] * 0x100 + s[offset + 3]
}

/// Where the offset stands after a successful read of `width` bytes.
pub open spec fn offset_after(offset: int, width: int, update_offset: bool) -> int {
    if update_offset {
        offset + width
    } else {
        offset
    }
}

/// The big-endian 16-bit number that starts at `index`.
pub fn uint16_at(data: &[u8], index: usize) -> (v: u16)
    requires
        in_bounds(data@, index as int, 2),
    ensures
        v == be_u16(data@, index as int),
{
    let hi: u16 = data[index] as u16;
    let lo: u16 = data[index + 1] as u16;
    hi * 0x100 + lo
}

/// The big-endian 32-bit number that starts at `index`.
pub fn uint32_at(data: &[u8], index: usize) -> (v: u32)
    requires
        in_bounds(data@, index as int, 4),
    ensures
        v == be_u32(data@, index as int),
{
    let b0: u32 = data[index] as u32;
    let b1: u32 = data[index + 1] as u32;
    let b2: u32 = data[index + 2] as u32;
    let b3: u32 = data[index + 3] as u32;
    b0 * 0x100_0000 + b1 * 0x1_0000 + b2 * 0x100 + b3
}

/// Reads one byte at `*offset`. The offset moves past it only if
/// `update_offset` is set, and never on failure.
pub fn read_byte(data: &[u8], offset: &mut usize, update_offset: bool) -> (r: Result<
    u8,
    ExtabError,
>)
    ensures
        r is Ok <==> in_bounds(data@, *old(offset) as int, 1),
        r matches Ok(v) ==> v == data@[*old(offset) as int] && *final(offset) == offset_after(
            *old(offset) as int,
            1,
            update_offset,
        ),
        r matches Err(e) ==> e == ExtabError::OutOfBounds && *final(offset) == *old(offset),
{
    let index: usize = *offset;
    if index >= data.len() {
        return Err(ExtabError::OutOfBounds);
    }
    let b: u8 = data[index];
    if update_offset {
        *offset = index + 1;
    }
    Ok(b)
}

/// Reads a big-endian 16-bit number at `*offset`. The offset moves past it
/// only if `update_offset` is set, and never on failure.
pub fn read_uint16(data: &[u8], offset: &mut usize, update_offset: bool) -> (r: Result<
    u16,
    ExtabError,
>)
    ensures
        r is Ok <==> in_bounds(data@, *old(offset) as int, 2),
        r matches Ok(v) ==> v == be_u16(data@, *old(offset) as int) && *final(offset)
            == offset_after(*old(offset) as int, 2, update_offset),
        r matches Err(e) ==> e == ExtabError::OutOfBounds && *final(offset) == *old(offset),
{
    let index: usize = *offset;
    if data.len() < 2 || index > data.len() - 2 {
        return Err(ExtabError::OutOfBounds);
    }
    if update_offset {
        *offset = index + 2;
    }
    Ok(uint16_at(data, index))
}

/// Reads a big-endian 32-bit number at `*offset`. The offset moves past it
/// only if `update_offset` is set, and never on failure.
pub fn read_uint32(data: &[u8], offset: &mut usize, update_offset: bool) -> (r: Result<
    u32,
    ExtabError,
>)
    ensures
        r is Ok <==> in_bounds(data@, *old(offset) as int, 4),
        r matches Ok(v) ==> v == be_u32(data@, *old(offset) as int) && *final(offset)
            == offset_after(*old(offset) as int, 4, update_offset),
        r matches Err(e) ==> e == ExtabError::OutOfBounds && *final(offset) == *old(offset),
{
    let index: usize = *offset;
    if data.len() < 4 || index > data.len() - 4 {
        return Err(ExtabError::OutOfBounds);
    }
    if update_offset {
        *offset = index + 4;
    }
    Ok(uint32_at(data, index))
}

} // verus!

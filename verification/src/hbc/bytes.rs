//! Little-endian field access over byte sequences.

use vstd::prelude::*;

verus! {

/// The unsigned 16-bit little-endian value stored at `offset`.
pub open spec fn le_u16(s: Seq<u8>, offset: int) -> u16 {
    (s[offset] as int + s[offset + 1] as int * 0x100) as u16
}

/// The unsigned 32-bit little-endian value stored at `offset`.
pub open spec fn le_u32(s: Seq<u8>, offset: int) -> u32 {
    (s[offset] as int + s[offset + 1] as int * 0x100 + s[offset + 2] as int * 0x1_0000
        + s[offset + 3] as int * 0x100_0000) as u32
}

/// The unsigned 64-bit little-endian value stored at `offset`.
pub open spec fn le_u64(s: Seq<u8>, offset: int) -> u64 {
    (le_u32(s, offset) as int + le_u32(s, offset + 4) as int * 0x1_0000_0000) as u64
}

/// Reads a little-endian `u16`.
pub fn read_u16(bytes: &[u8], offset: usize) -> (value: u16)
    requires
        offset + 2 <= bytes@.len(),
    ensures
        value == le_u16(bytes@, offset as int),
{
    bytes[offset] as u16 + bytes[offset + 1] as u16 * 0x100
}

/// Reads a little-endian `u32`.
pub fn read_u32(bytes: &[u8], offset: usize) -> (value: u32)
    requires
        offset + 4 <= bytes@.len(),
    ensures
        value == le_u32(bytes@, offset as int),
{
    bytes[offset] as u32 + bytes[offset + 1] as u32 * 0x100 + bytes[offset + 2] as u32 * 0x1_0000
        + bytes[offset + 3] as u32 * 0x100_0000
}

/// Reads a little-endian `u64`.
pub fn read_u64(bytes: &[u8], offset: usize) -> (value: u64)
    requires
        offset + 8 <= bytes@.len(),
    ensures
        value == le_u64(bytes@, offset as int),
{
    let _len = bytes.len();
    read_u32(bytes, offset) as u64 + read_u32(bytes, offset + 4) as u64 * 0x1_0000_0000
}

} // verus!

use crate::Error;
use vstd::prelude::*;

verus! {

/// The unsigned 16-bit value stored little-endian at byte offset `off`.
pub open spec fn spec_le_u16(b: Seq<u8>, off: int) -> u16 {
    (b[off] + b[off + 1] * 0x100) as u16
}

/// The unsigned 32-bit value stored little-endian at byte offset `off`.
pub open spec fn spec_le_u32(b: Seq<u8>, off: int) -> u32 {
    (b[off] + b[off + 1] * 0x100 + b[off + 2] * 0x1_0000 + b[off + 3] * 0x100_0000) as u32
}

/// The unsigned 64-bit value stored little-endian at byte offset `off`.
pub open spec fn spec_le_u64(b: Seq<u8>, off: int) -> u64 {
    (b[off] + b[off + 1] * 0x100 + b[off + 2] * 0x1_0000 + b[off + 3] * 0x100_0000
        + b[off + 4] * 0x1_0000_0000 + b[off + 5] * 0x100_0000_0000
        + b[off + 6] * 0x1_0000_0000_0000 + b[off + 7] * 0x100_0000_0000_0000) as u64
}

/// Read the byte at `offset`, or fail when the buffer is too short.
pub fn read_u8(binary: &[u8], offset: usize) -> (r: Result<u8, Error>)
    ensures
        offset + 1 <= binary@.len() ==> r == Ok::<u8, Error>(binary@[offset as int]),
        offset + 1 > binary@.len() ==> r == Err::<u8, Error>(Error::OffsetOutOfRange),
{
    if offset < binary.len() {
        Ok(binary[offset])
    } else {
        Err(Error::OffsetOutOfRange)
    }
}

/// Read a little-endian 16-bit value at `offset`, or fail when any of its
/// two bytes would lie past the end of the buffer.
pub fn read_u16(binary: &[u8], offset: usize) -> (r: Result<u16, Error>)
    ensures
        offset + 2 <= binary@.len() ==> r == Ok::<u16, Error>(spec_le_u16(binary@, offset as int)),
        offset + 2 > binary@.len() ==> r == Err::<u16, Error>(Error::OffsetOutOfRange),
{
    if binary.len() >= 2 && offset <= binary.len() - 2 {
        let b0 = binary[offset];
        let b1 = binary[offset + 1];
        Ok(b0 as u16 + (b1 as u16) * 0x100)
    } else {
        Err(Error::OffsetOutOfRange)
    }
}

/// Read a little-endian 32-bit value at `offset`, or fail when any of its
/// four bytes would lie past the end of the buffer.
pub fn read_u32(binary: &[u8], offset: usize) -> (r: Result<u32, Error>)
    ensures
        offset + 4 <= binary@.len() ==> r == Ok::<u32, Error>(spec_le_u32(binary@, offset as int)),
        offset + 4 > binary@.len() ==> r == Err::<u32, Error>(Error::OffsetOutOfRange),
{
    if binary.len() >= 4 && offset <= binary.len() - 4 {
        let b0 = binary[offset];
        let b1 = binary[offset + 1];
        let b2 = binary[offset + 2];
        let b3 = binary[offset + 3];
        Ok(b0 as u32 + (b1 as u32) * 0x100 + (b2 as u32) * 0x1_0000 + (b3 as u32) * 0x100_0000)
    } else {
        Err(Error::OffsetOutOfRange)
    }
}

/// Read a little-endian 64-bit value at `offset`, or fail when any of its
/// eight bytes would lie past the end of the buffer.
pub fn read_u64(binary: &[u8], offset: usize) -> (r: Result<u64, Error>)
    ensures
        offset + 8 <= binary@.len() ==> r == Ok::<u64, Error>(spec_le_u64(binary@, offset as int)),
        offset + 8 > binary@.len() ==> r == Err::<u64, Error>(Error::OffsetOutOfRange),
{
    if binary.len() >= 8 && offset <= binary.len() - 8 {
        let b0 = binary[offset];
        let b1 = binary[offset + 1];
        let b2 = binary[offset + 2];
        let b3 = binary[offset + 3];
        let b4 = binary[offset + 4];
        let b5 = binary[offset + 5];
        let b6 = binary[offset + 6];
        let b7 = binary[offset + 7];
        Ok(b0 as u64 + (b1 as u64) * 0x100 + (b2 as u64) * 0x1_0000 + (b3 as u64) * 0x100_0000
            + (b4 as u64) * 0x1_0000_0000 + (b5 as u64) * 0x100_0000_0000
            + (b6 as u64) * 0x1_0000_0000_0000 + (b7 as u64) * 0x100_0000_0000_0000)
    } else {
        Err(Error::OffsetOutOfRange)
    }
}

} // verus!

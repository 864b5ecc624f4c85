use vstd::prelude::*;

use crate::header::ByteOrder;

verus! {

/// The 16-bit integer whose two bytes stand at index `i` of `b`,
/// reassembled per `bo`.
pub open spec fn u16_at(b: Seq<u8>, i: int, bo: ByteOrder) -> u16
    recommends
        0 <= i,
        i + 2 <= b.len(),
{
    match bo {
        ByteOrder::LittleEndian => (b[i] as u16) | ((b[i + 1] as u16) << 8),
        ByteOrder::BigEndian => (b[i + 1] as u16) | ((b[i] as u16) << 8),
    }
}

/// The 32-bit integer whose four bytes stand at index `i` of `b`,
/// reassembled per `bo`.
pub open spec fn u32_at(b: Seq<u8>, i: int, bo: ByteOrder) -> u32
    recommends
        0 <= i,
        i + 4 <= b.len(),
{
    match bo {
        ByteOrder::LittleEndian => (b[i] as u32) | ((b[i + 1] as u32) << 8) | ((b[i + 2] as u32)
            << 16) | ((b[i + 3] as u32) << 24),
        ByteOrder::BigEndian => (b[i + 3] as u32) | ((b[i + 2] as u32) << 8) | ((b[i + 1] as u32)
            << 16) | ((b[i] as u32) << 24),
    }
}

/// Reads the 16-bit integer at `pos`, reassembled per `byte_order`.
pub fn read_u16(bytes: &[u8], pos: usize, byte_order: ByteOrder) -> (r: u16)
    requires
        pos + 2 <= bytes@.len(),
    ensures
        r == u16_at(bytes@, pos as int, byte_order),
{
    let b0 = bytes[pos];
    let b1 = bytes[pos + 1];
    match byte_order {
        ByteOrder::LittleEndian => (b0 as u16) | ((b1 as u16) << 8),
        ByteOrder::BigEndian => (b1 as u16) | ((b0 as u16) << 8),
    }
}

/// Reads the 32-bit integer at `pos`, reassembled per `byte_order`.
pub fn read_u32(bytes: &[u8], pos: usize, byte_order: ByteOrder) -> (r: u32)
    requires
        pos + 4 <= bytes@.len(),
    ensures
        r == u32_at(bytes@, pos as int, byte_order),
{
    let b0 = bytes[pos];
    let b1 = bytes[pos + 1];
    let b2 = bytes[pos + 2];
    let b3 = bytes[pos + 3];
    match byte_order {
        ByteOrder::LittleEndian => (b0 as u32) | ((b1 as u32) << 8) | ((b2 as u32) << 16) | ((
        b3 as u32) << 24),
        ByteOrder::BigEndian => (b3 as u32) | ((b2 as u32) << 8) | ((b1 as u32) << 16) | ((
        b0 as u32) << 24),
    }
}

} // verus!

use vstd::prelude::*;

use crate::endian::{read_u32, u32_at};
use crate::error::{TiffError, TiffErrorKind};
use crate::ifd::MINIMUM_IFD_LENGTH;

verus! {

/// Length of the fixed TIFF file header in bytes.
pub const HEADER_LEN: usize = 8;

/// How every multi-byte integer in the file is reassembled. Derived once
/// from the first two header bytes and threaded by value into every
/// downstream read.
#[derive(Clone, Copy, Debug, PartialEq, Eq, Structural)]
pub enum ByteOrder {
    LittleEndian,
    BigEndian,
}

/// The decoded 8-byte file header: the declared byte order and the
/// offset of the first image file directory.
#[derive(Clone, Copy, Debug, PartialEq, Eq, Structural)]
pub struct TiffHeader {
    pub byte_order: ByteOrder,
    pub ifd_offset: u32,
}

/// The byte order that the first two bytes of `b` declare, if any:
/// `II` is little-endian, `MM` big-endian.
pub open spec fn spec_byte_order(b: Seq<u8>) -> Option<ByteOrder>
    recommends
        b.len() >= 2,
{
    if b[0] == 0x49 && b[1] == 0x49 {
        Some(ByteOrder::LittleEndian)
    } else if b[0] == 0x4D && b[1] == 0x4D {
        Some(ByteOrder::BigEndian)
    } else {
        None
    }
}

/// Whether bytes 2 and 3 of `b` hold the magic constant 42 encoded
/// per `bo`.
pub open spec fn spec_magic_ok(b: Seq<u8>, bo: ByteOrder) -> bool
    recommends
        b.len() >= 4,
{
    match bo {
        ByteOrder::LittleEndian => b[2] == 0x2A && b[3] == 0x00,
        ByteOrder::BigEndian => b[2] == 0x00 && b[3] == 0x2A,
    }
}

/// What header parsing yields on `b`: the checks run in order and the
/// first violated one decides the error kind.
pub open spec fn spec_parse_header(b: Seq<u8>) -> Result<TiffHeader, TiffErrorKind> {
    if b.len() < HEADER_LEN {
        Err(TiffErrorKind::InvalidHeader)
    } else {
        match spec_byte_order(b) {
            None => Err(TiffErrorKind::InvalidByteOrder),
            Some(bo) => if !spec_magic_ok(b, bo) {
                Err(TiffErrorKind::InvalidMagicBytes)
            } else {
                let off = u32_at(b, 4, bo);
                if off + MINIMUM_IFD_LENGTH > b.len() {
                    Err(TiffErrorKind::InvalidHeader)
                } else {
                    Ok(TiffHeader { byte_order: bo, ifd_offset: off })
                }
            },
        }
    }
}

/// The two-byte marker that declares `bo`: `II` or `MM`.
pub open spec fn spec_order_marker(bo: ByteOrder) -> Seq<u8> {
    match bo {
        ByteOrder::LittleEndian => seq![0x49u8, 0x49u8],
        ByteOrder::BigEndian => seq![0x4Du8, 0x4Du8],
    }
}

/// The magic constant 42 encoded per `bo`.
pub open spec fn spec_magic_marker(bo: ByteOrder) -> Seq<u8> {
    match bo {
        ByteOrder::LittleEndian => seq![0x2Au8, 0x00u8],
        ByteOrder::BigEndian => seq![0x00u8, 0x2Au8],
    }
}

/// `x` written out as four bytes per `bo`.
pub open spec fn spec_encode_u32(x: u32, bo: ByteOrder) -> Seq<u8> {
    let b0 = (x & 0xFF) as u8;
    let b1 = ((x >> 8) & 0xFF) as u8;
    let b2 = ((x >> 16) & 0xFF) as u8;
    let b3 = ((x >> 24) & 0xFF) as u8;
    match bo {
        ByteOrder::LittleEndian => seq![b0, b1, b2, b3],
        ByteOrder::BigEndian => seq![b3, b2, b1, b0],
    }
}

/// The 8-byte header that declares `bo` and points at `ifd_offset`.
pub open spec fn spec_encode_header(bo: ByteOrder, ifd_offset: u32) -> Seq<u8> {
    spec_order_marker(bo) + spec_magic_marker(bo) + spec_encode_u32(ifd_offset, bo)
}

/// Reassembling the four bytes that encode `x` gives back `x`.
proof fn lemma_u32_encode_round_trip(x: u32, bo: ByteOrder)
    ensures
        u32_at(spec_encode_u32(x, bo), 0, bo) == x,
{
    assert((x & 0xFF) < 256 && ((x >> 8) & 0xFF) < 256 && ((x >> 16) & 0xFF) < 256 && ((x >> 24)
        & 0xFF) < 256) by (bit_vector);
    assert(x == (x & 0xFF) | (((x >> 8) & 0xFF) << 8) | (((x >> 16) & 0xFF) << 16) | (((x >> 24)
        & 0xFF) << 24)) by (bit_vector);
}

/// Round trip: a header that encodes a byte order and an IFD offset
/// parses back to exactly that pair, whenever the offset leaves room for
/// a minimal directory within the encoded header plus the rest of the
/// buffer.
pub proof fn lemma_header_round_trip(bo: ByteOrder, ifd_offset: u32, rest: Seq<u8>)
    requires
        ifd_offset + MINIMUM_IFD_LENGTH <= HEADER_LEN + rest.len(),
    ensures
        spec_parse_header(spec_encode_header(bo, ifd_offset) + rest) == Ok::<
            TiffHeader,
            TiffErrorKind,
        >(TiffHeader { byte_order: bo, ifd_offset }),
{
    let header = spec_encode_header(bo, ifd_offset);
    let b = header + rest;
    assert(b[0] == header[0] && b[1] == header[1] && b[2] == header[2] && b[3] == header[3] && b[4]
        == header[4] && b[5] == header[5] && b[6] == header[6] && b[7] == header[7]);
    lemma_u32_encode_round_trip(ifd_offset, bo);
}

/// Resolves the byte-order marker in the first two bytes.
pub fn get_byte_order(bytes: &[u8]) -> (r: Result<ByteOrder, TiffError>)
    requires
        bytes@.len() >= 2,
    ensures
        (match r {
            Ok(bo) => spec_byte_order(bytes@) == Some(bo),
            Err(e) => spec_byte_order(bytes@) is None && e.spec_kind()
                == TiffErrorKind::InvalidByteOrder,
        }),
{
    let b0 = bytes[0];
    let b1 = bytes[1];
    if b0 == 0x49 && b1 == 0x49 {
        Ok(ByteOrder::LittleEndian)
    } else if b0 == 0x4D && b1 == 0x4D {
        Ok(ByteOrder::BigEndian)
    } else {
        Err(TiffError::new(TiffErrorKind::InvalidByteOrder))
    }
}

/// Checks that bytes 2 and 3 hold the magic constant 42 encoded per
/// `byte_order`.
pub fn check_magic_bytes(bytes: &[u8], byte_order: ByteOrder) -> (r: Result<bool, TiffError>)
    requires
        bytes@.len() >= 4,
    ensures
        (match r {
            Ok(ok) => ok && spec_magic_ok(bytes@, byte_order),
            Err(e) => !spec_magic_ok(bytes@, byte_order) && e.spec_kind()
                == TiffErrorKind::InvalidMagicBytes,
        }),
{
    let b2 = bytes[2];
    let b3 = bytes[3];
    let ok = match byte_order {
        ByteOrder::LittleEndian => b2 == 0x2A && b3 == 0x00,
        ByteOrder::BigEndian => b2 == 0x00 && b3 == 0x2A,
    };
    if ok {
        Ok(true)
    } else {
        Err(TiffError::new(TiffErrorKind::InvalidMagicBytes))
    }
}

/// Reassembles the first-IFD offset from header bytes 4 through 7.
pub fn get_ifd_offset(bytes: &[u8], byte_order: ByteOrder) -> (r: u32)
    requires
        bytes@.len() >= HEADER_LEN,
    ensures
        r == u32_at(bytes@, 4, byte_order),
{
    read_u32(bytes, 4, byte_order)
}

/// Validates and decodes the 8-byte file header. The checks run in
/// order and the first violated one decides the error: a buffer shorter
/// than 8 bytes or an IFD offset without room for a minimal directory is
/// `InvalidHeader`, an unrecognized order marker is `InvalidByteOrder`,
/// and a mismatched magic constant is `InvalidMagicBytes`.
pub fn parse_tiff_header(bytes: &[u8]) -> (r: Result<TiffHeader, TiffError>)
    ensures
        (match r {
            Ok(h) => spec_parse_header(bytes@) == Ok::<TiffHeader, TiffErrorKind>(h),
            Err(e) => spec_parse_header(bytes@) == Err::<TiffHeader, TiffErrorKind>(e.spec_kind()),
        }),
        bytes@.len() < HEADER_LEN ==> (r matches Err(e) && e.spec_kind()
            == TiffErrorKind::InvalidHeader),
        bytes@.len() >= HEADER_LEN && spec_byte_order(bytes@) is None ==> (r matches Err(e)
            && e.spec_kind() == TiffErrorKind::InvalidByteOrder),
{
    let nbytes = bytes.len();
    if nbytes < HEADER_LEN {
        return Err(TiffError::new(TiffErrorKind::InvalidHeader));
    }
    let byte_order = match get_byte_order(bytes) {
        Ok(bo) => bo,
        Err(e) => {
            return Err(e);
        },
    };
    match check_magic_bytes(bytes, byte_order) {
        Ok(_) => (),
        Err(e) => {
            return Err(e);
        },
    };
    let ifd_offset = get_ifd_offset(bytes, byte_order);
    if (ifd_offset as u64) + (MINIMUM_IFD_LENGTH as u64) > (nbytes as u64) {
        return Err(TiffError::new(TiffErrorKind::InvalidHeader));
    }
    Ok(TiffHeader { byte_order, ifd_offset })
}

} // verus!

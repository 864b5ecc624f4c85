use tiff_inspect::error::TiffErrorKind;
use tiff_inspect::header::{parse_tiff_header, ByteOrder, TiffHeader};
use tiff_inspect::ifd::MINIMUM_IFD_LENGTH;

/// An 8-byte header followed by `pad` zero bytes.
fn header_with_padding(h: [u8; 8], pad: usize) -> Vec<u8> {
    let mut bytes = h.to_vec();
    bytes.extend(std::iter::repeat(0u8).take(pad));
    bytes
}

fn encode_header(byte_order: ByteOrder, ifd_offset: u32) -> [u8; 8] {
    let o = ifd_offset;
    match byte_order {
        ByteOrder::LittleEndian => [
            0x49,
            0x49,
            0x2A,
            0x00,
            o as u8,
            (o >> 8) as u8,
            (o >> 16) as u8,
            (o >> 24) as u8,
        ],
        ByteOrder::BigEndian => [
            0x4D,
            0x4D,
            0x00,
            0x2A,
            (o >> 24) as u8,
            (o >> 16) as u8,
            (o >> 8) as u8,
            o as u8,
        ],
    }
}

#[test]
fn short_buffers_fail_invalid_header() {
    for len in 0..8usize {
        let bytes = vec![0x49u8; len];
        let err = parse_tiff_header(&bytes).unwrap_err();
        assert_eq!(err.kind(), TiffErrorKind::InvalidHeader, "length {}", len);
    }
}

#[test]
fn unrecognized_order_marker_fails() {
    let candidates: [[u8; 2]; 4] = [[0x00, 0x00], [0x49, 0x4D], [0x4D, 0x49], [0xFF, 0xFE]];
    for marker in candidates {
        let mut bytes = vec![0u8; 8 + MINIMUM_IFD_LENGTH];
        bytes[0] = marker[0];
        bytes[1] = marker[1];
        bytes[2] = 0x2A;
        let err = parse_tiff_header(&bytes).unwrap_err();
        assert_eq!(err.kind(), TiffErrorKind::InvalidByteOrder);
    }
}

#[test]
fn little_endian_header_parses() {
    let bytes = header_with_padding([0x49, 0x49, 0x2A, 0x00, 0x08, 0x00, 0x00, 0x00], 126);
    let h = parse_tiff_header(&bytes).unwrap();
    assert_eq!(h.byte_order, ByteOrder::LittleEndian);
    assert_eq!(h.ifd_offset, 8);
}

#[test]
fn big_endian_header_parses() {
    let bytes = header_with_padding([0x4D, 0x4D, 0x00, 0x2A, 0x00, 0x00, 0x00, 0x08], 126);
    let h = parse_tiff_header(&bytes).unwrap();
    assert_eq!(h.byte_order, ByteOrder::BigEndian);
    assert_eq!(h.ifd_offset, 8);
}

#[test]
fn mismatched_magic_fails() {
    // big-endian style magic under a little-endian marker
    let bytes = header_with_padding([0x49, 0x49, 0x00, 0x2A, 0x08, 0x00, 0x00, 0x00], 126);
    let err = parse_tiff_header(&bytes).unwrap_err();
    assert_eq!(err.kind(), TiffErrorKind::InvalidMagicBytes);

    // and the converse under a big-endian marker
    let bytes = header_with_padding([0x4D, 0x4D, 0x2A, 0x00, 0x00, 0x00, 0x00, 0x08], 126);
    let err = parse_tiff_header(&bytes).unwrap_err();
    assert_eq!(err.kind(), TiffErrorKind::InvalidMagicBytes);
}

#[test]
fn offset_without_room_fails() {
    // offset 9 in a buffer of 8 + 126 bytes: one byte short of a minimal IFD
    let bytes = header_with_padding([0x49, 0x49, 0x2A, 0x00, 0x09, 0x00, 0x00, 0x00], 126);
    let err = parse_tiff_header(&bytes).unwrap_err();
    assert_eq!(err.kind(), TiffErrorKind::InvalidHeader);
}

#[test]
fn offset_at_boundary_is_accepted() {
    // offset 8 in a buffer of exactly 8 + 126 bytes
    let bytes = header_with_padding([0x49, 0x49, 0x2A, 0x00, 0x08, 0x00, 0x00, 0x00], 126);
    let h = parse_tiff_header(&bytes).unwrap();
    assert_eq!(h.ifd_offset, 8);
}

#[test]
fn header_round_trip_recovers_pair() {
    let cases = [
        (ByteOrder::LittleEndian, 8u32),
        (ByteOrder::BigEndian, 8u32),
        (ByteOrder::LittleEndian, 0x0102u32),
        (ByteOrder::BigEndian, 0x0102u32),
    ];
    for (byte_order, ifd_offset) in cases {
        let pad = ifd_offset as usize + MINIMUM_IFD_LENGTH;
        let bytes = header_with_padding(encode_header(byte_order, ifd_offset), pad);
        let h = parse_tiff_header(&bytes).unwrap();
        assert_eq!(h, TiffHeader { byte_order, ifd_offset });
    }
}

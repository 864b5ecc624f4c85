use tiff_inspect::error::TiffErrorKind;
use tiff_inspect::header::ByteOrder;
use tiff_inspect::parse_tiff;

/// A complete little-endian file: header at 0, directory at 8 with ten
/// one-unit Short fields, next-directory offset 0.
fn minimal_le_file() -> Vec<u8> {
    let mut bytes = vec![0x49, 0x49, 0x2A, 0x00, 0x08, 0x00, 0x00, 0x00];
    bytes.extend([0x0A, 0x00]);
    for i in 0..10u16 {
        bytes.extend((0x0100 + i).to_le_bytes());
        bytes.extend(3u16.to_le_bytes());
        bytes.extend(1u32.to_le_bytes());
        bytes.extend(u32::from(i).to_le_bytes());
    }
    bytes.extend(0u32.to_le_bytes());
    bytes
}

#[test]
fn whole_file_parses() {
    let bytes = minimal_le_file();
    let (h, d) = parse_tiff(&bytes).unwrap();
    assert_eq!(h.byte_order, ByteOrder::LittleEndian);
    assert_eq!(h.ifd_offset, 8);
    assert_eq!(d.n_fields, 10);
    assert_eq!(d.next_ifd_offset, 0);
    assert_eq!(d.fields.len(), 10);
    assert_eq!(d.fields[3].tag, 0x0103);
    assert_eq!(d.fields[3].value, Some(3));
    assert_eq!(d.fields[3].offset, None);
}

#[test]
fn whole_file_header_error_propagates() {
    let mut bytes = minimal_le_file();
    bytes[1] = 0x4D;
    let err = parse_tiff(&bytes).unwrap_err();
    assert_eq!(err.kind(), TiffErrorKind::InvalidByteOrder);
}

#[test]
fn whole_file_directory_error_propagates() {
    let mut bytes = minimal_le_file();
    // an unrecognized type code in the first entry
    bytes[12] = 13;
    let err = parse_tiff(&bytes).unwrap_err();
    assert_eq!(err.kind(), TiffErrorKind::InvalidIFD);
}

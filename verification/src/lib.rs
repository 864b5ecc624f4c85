// Validation and decoding of TIFF structural metadata: the 8-byte file
// header and the first image file directory (IFD) with its field table.
// Every multi-byte read is parameterized by the byte order the header
// declares, and every offset and count taken from the file is checked
// against the buffer before it is used.

use vstd::prelude::*;

pub mod endian;
pub mod error;
pub mod header;
pub mod ifd;

use crate::endian::{u16_at, u32_at};
use crate::error::{TiffError, TiffErrorKind};
use crate::header::{parse_tiff_header, spec_parse_header, TiffHeader};
use crate::ifd::{
    parse_ifd, spec_fields, spec_ifd_ok, Field, ImageFileDirectory, IFD_FIELD_LENGTH,
};

verus! {

/// Validates and decodes a complete in-memory TIFF buffer: the 8-byte
/// header, then the first directory at the offset the header declares.
/// Fails fast with the first violated check's kind; no partial result is
/// produced.
pub fn parse_tiff(bytes: &[u8]) -> (r: Result<(TiffHeader, ImageFileDirectory), TiffError>)
    ensures
        (r is Ok <==> (spec_parse_header(bytes@) matches Ok(h) && spec_ifd_ok(
            bytes@,
            h.ifd_offset as int,
            h.byte_order,
        ))),
        (r matches Ok((h, d)) ==> {
            let n = u16_at(bytes@, h.ifd_offset as int, h.byte_order);
            &&& spec_parse_header(bytes@) == Ok::<TiffHeader, TiffErrorKind>(h)
            &&& d.n_fields == n
            &&& d.next_ifd_offset == u32_at(
                bytes@,
                h.ifd_offset + 2 + IFD_FIELD_LENGTH * (n as int),
                h.byte_order,
            )
            &&& Ok::<Seq<Field>, TiffErrorKind>(d.fields@) == spec_fields(
                bytes@,
                h.ifd_offset + 2,
                n as nat,
                h.byte_order,
            )
            &&& d.fields@.len() == n
        }),
        (r matches Err(e) ==> (match spec_parse_header(bytes@) {
            Err(k) => e.spec_kind() == k,
            Ok(h) => e.spec_kind() == TiffErrorKind::InvalidIFD && !spec_ifd_ok(
                bytes@,
                h.ifd_offset as int,
                h.byte_order,
            ),
        })),
{
    let header = match parse_tiff_header(bytes) {
        Ok(h) => h,
        Err(e) => {
            return Err(e);
        },
    };
    let directory = match parse_ifd(bytes, header.ifd_offset, header.byte_order) {
        Ok(d) => d,
        Err(e) => {
            return Err(e);
        },
    };
    Ok((header, directory))
}

} // verus!

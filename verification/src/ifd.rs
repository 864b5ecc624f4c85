use vstd::prelude::*;

use crate::endian::{read_u16, read_u32, u16_at, u32_at};
use crate::error::{TiffError, TiffErrorKind};
use crate::header::ByteOrder;

verus! {

/// Bytes a minimally-sized directory occupies: the 2-byte field count,
/// a floor of 10 fields of 12 bytes each, and the 4-byte next offset.
pub const MINIMUM_IFD_LENGTH: usize = 126;

/// Field count assumed by the minimum directory length.
pub const MINIMUM_IFD_FIELDS: usize = 10;

/// Bytes per field table entry.
pub const IFD_FIELD_LENGTH: usize = 12;

/// The first image file directory: its declared field count, the decoded
/// field table in on-disk order, and the raw offset of the next directory
/// (0 conventionally means there is none; it is surfaced, not followed).
#[derive(Debug)]
pub struct ImageFileDirectory {
    pub n_fields: u16,
    pub next_ifd_offset: u32,
    pub fields: Vec<Field>,
}

/// One decoded field table entry. Exactly one of `value` and `offset` is
/// populated: `value` holds the trailing four bytes read as an inline
/// value when `count * type_length <= 4`, and `offset` holds them read as
/// a pointer to out-of-line data otherwise. The pointer is surfaced, not
/// dereferenced.
#[derive(Debug)]
pub struct Field {
    pub tag: u16,
    pub ftype: FieldType,
    pub count: u32,
    pub value: Option<u32>,
    pub offset: Option<u32>,
}

/// The twelve standard TIFF data types, each with a fixed per-unit byte
/// width.
#[derive(Clone, Copy, Debug, PartialEq, Eq, Structural)]
pub enum FieldType {
    Byte,
    ASCII,
    Short,
    Long,
    Rational,
    SByte,
    Undefined,
    SShort,
    SLong,
    SRational,
    Float,
    Double,
}

impl FieldType {
    /// The type that a 16-bit type code denotes, if any: codes 1 through
    /// 12 in declaration order.
    pub open spec fn spec_from_u16(code: u16) -> Option<FieldType> {
        if code == 1 {
            Some(FieldType::Byte)
        } else if code == 2 {
            Some(FieldType::ASCII)
        } else if code == 3 {
            Some(FieldType::Short)
        } else if code == 4 {
            Some(FieldType::Long)
        } else if code == 5 {
            Some(FieldType::Rational)
        } else if code == 6 {
            Some(FieldType::SByte)
        } else if code == 7 {
            Some(FieldType::Undefined)
        } else if code == 8 {
            Some(FieldType::SShort)
        } else if code == 9 {
            Some(FieldType::SLong)
        } else if code == 10 {
            Some(FieldType::SRational)
        } else if code == 11 {
            Some(FieldType::Float)
        } else if code == 12 {
            Some(FieldType::Double)
        } else {
            None
        }
    }

    /// Maps an integer type code to its enum member.
    pub fn from_u16(code: u16) -> (r: Option<FieldType>)
        ensures
            r == Self::spec_from_u16(code),
    {
        match code {
            1 => Some(FieldType::Byte),
            2 => Some(FieldType::ASCII),
            3 => Some(FieldType::Short),
            4 => Some(FieldType::Long),
            5 => Some(FieldType::Rational),
            6 => Some(FieldType::SByte),
            7 => Some(FieldType::Undefined),
            8 => Some(FieldType::SShort),
            9 => Some(FieldType::SLong),
            10 => Some(FieldType::SRational),
            11 => Some(FieldType::Float),
            12 => Some(FieldType::Double),
            _ => None,
        }
    }

    /// The per-unit byte width of this type.
    pub open spec fn spec_type_length(self) -> int {
        match self {
            FieldType::Byte | FieldType::SByte | FieldType::ASCII => 1,
            FieldType::Short | FieldType::SShort => 2,
            FieldType::Long | FieldType::SLong | FieldType::Float => 4,
            FieldType::Rational | FieldType::SRational | FieldType::Double => 8,
            FieldType::Undefined => 1,
        }
    }

    /// The byte length of one unit of this data type.
    pub fn type_length(&self) -> (r: usize)
        ensures
            r == self.spec_type_length(),
            1 <= r <= 8,
    {
        match self {
            FieldType::Byte | FieldType::SByte | FieldType::ASCII => 1,
            FieldType::Short | FieldType::SShort => 2,
            FieldType::Long | FieldType::SLong | FieldType::Float => 4,
            FieldType::Rational | FieldType::SRational | FieldType::Double => 8,
            FieldType::Undefined => 1,
        }
    }
}

/// What decoding the 12-byte field entry at `pos` of `b` yields. The
/// entry holds tag, type code, count and a trailing word; an unrecognized
/// type code or a count whose payload size overflows 32 bits fails the
/// entry, and otherwise the trailing word is an inline value exactly when
/// the payload fits in its four bytes.
pub open spec fn spec_field_at(b: Seq<u8>, pos: int, bo: ByteOrder) -> Result<
    Field,
    TiffErrorKind,
>
    recommends
        0 <= pos,
        pos + IFD_FIELD_LENGTH <= b.len(),
{
    let tag = u16_at(b, pos, bo);
    let code = u16_at(b, pos + 2, bo);
    let count = u32_at(b, pos + 4, bo);
    let word = u32_at(b, pos + 8, bo);
    match FieldType::spec_from_u16(code) {
        None => Err(TiffErrorKind::InvalidIFD),
        Some(ftype) => if count * ftype.spec_type_length() > u32::MAX {
            Err(TiffErrorKind::InvalidIFD)
        } else if count * ftype.spec_type_length() <= 4 {
            Ok(Field { tag, ftype, count, value: Some(word), offset: None })
        } else {
            Ok(Field { tag, ftype, count, value: None, offset: Some(word) })
        },
    }
}

/// What decoding the first `n` field entries of the table at `pos`
/// yields: the entries in on-disk order, or the error of the first entry
/// that fails.
pub open spec fn spec_fields(b: Seq<u8>, pos: int, n: nat, bo: ByteOrder) -> Result<
    Seq<Field>,
    TiffErrorKind,
>
    decreases n,
{
    if n == 0 {
        Ok(Seq::empty())
    } else {
        match spec_fields(b, pos, (n - 1) as nat, bo) {
            Err(e) => Err(e),
            Ok(s) => match spec_field_at(b, pos + IFD_FIELD_LENGTH * (n - 1), bo) {
                Err(e) => Err(e),
                Ok(f) => Ok(s.push(f)),
            },
        }
    }
}

/// Decodes one 12-byte field table entry at `pos`.
pub fn decode_field(bytes: &[u8], pos: usize, byte_order: ByteOrder) -> (r: Result<
    Field,
    TiffError,
>)
    requires
        pos + IFD_FIELD_LENGTH <= bytes@.len(),
    ensures
        (match r {
            Ok(f) => spec_field_at(bytes@, pos as int, byte_order) == Ok::<Field, TiffErrorKind>(f),
            Err(e) => spec_field_at(bytes@, pos as int, byte_order) == Err::<Field, TiffErrorKind>(
                e.spec_kind(),
            ),
        }),
{
    proof {
        // the buffer is a slice, so every position below its length fits in usize
        assert(bytes@.len() == bytes.len());
    }
    let tag = read_u16(bytes, pos, byte_order);
    let code = read_u16(bytes, pos + 2, byte_order);
    let count = read_u32(bytes, pos + 4, byte_order);
    let word = read_u32(bytes, pos + 8, byte_order);
    let ftype = match FieldType::from_u16(code) {
        Some(ftype) => ftype,
        None => {
            return Err(TiffError::new(TiffErrorKind::InvalidIFD));
        },
    };
    let width = ftype.type_length();
    proof {
        assert((count as int) * (width as int) <= 0xFFFF_FFFF * 8) by (nonlinear_arith)
            requires
                count as int <= 0xFFFF_FFFF,
                0 <= width as int <= 8,
        ;
    }
    let payload: u64 = (count as u64) * (width as u64);
    if payload > 0xFFFF_FFFF {
        return Err(TiffError::new(TiffErrorKind::InvalidIFD));
    }
    if payload <= 4 {
        Ok(Field { tag, ftype, count, value: Some(word), offset: None })
    } else {
        Ok(Field { tag, ftype, count, value: None, offset: Some(word) })
    }
}

/// Every field entry that decodes populates exactly one of `value` and
/// `offset` — never both, never neither — and `value` is the one
/// populated exactly when `count * type_length <= 4`.
pub proof fn lemma_field_value_offset_exclusive(b: Seq<u8>, pos: int, bo: ByteOrder)
    requires
        spec_field_at(b, pos, bo) is Ok,
    ensures
        ({
            let f = spec_field_at(b, pos, bo)->Ok_0;
            &&& (f.value is Some) != (f.offset is Some)
            &&& f.value is Some <==> f.count * f.ftype.spec_type_length() <= 4
            &&& f.offset is Some <==> f.count * f.ftype.spec_type_length() > 4
        }),
{
}

/// An entry that fails to decode fails every longer prefix of the table.
proof fn lemma_spec_fields_err(b: Seq<u8>, pos: int, i: nat, n: nat, bo: ByteOrder)
    requires
        i < n,
        spec_fields(b, pos, i, bo) is Ok,
        spec_field_at(b, pos + IFD_FIELD_LENGTH * i, bo) is Err,
    ensures
        spec_fields(b, pos, n, bo) is Err,
    decreases n,
{
    if n > i + 1 {
        lemma_spec_fields_err(b, pos, i, (n - 1) as nat, bo);
    }
}

/// A table that decodes whole has one decoded entry per 12-byte slot, in
/// on-disk order.
pub proof fn lemma_spec_fields_ok(b: Seq<u8>, pos: int, n: nat, bo: ByteOrder)
    requires
        spec_fields(b, pos, n, bo) is Ok,
    ensures
        spec_fields(b, pos, n, bo)->Ok_0.len() == n,
        forall|j: int|
            0 <= j < n ==> spec_field_at(b, pos + IFD_FIELD_LENGTH * j, bo) == Ok::<
                Field,
                TiffErrorKind,
            >(spec_fields(b, pos, n, bo)->Ok_0[j]),
    decreases n,
{
    if n > 0 {
        lemma_spec_fields_ok(b, pos, (n - 1) as nat, bo);
    }
}

/// Decodes the field table of `n_fields` 12-byte entries that starts 2
/// bytes past `offset`, strictly in on-disk order.
pub fn get_fields(bytes: &[u8], offset: usize, byte_order: ByteOrder, n_fields: u16) -> (r: Result<
    Vec<Field>,
    TiffError,
>)
    requires
        offset + 2 + IFD_FIELD_LENGTH * (n_fields as int) <= bytes@.len(),
    ensures
        (match r {
            Ok(fields) => spec_fields(bytes@, offset + 2, n_fields as nat, byte_order) == Ok::<
                Seq<Field>,
                TiffErrorKind,
            >(fields@),
            Err(e) => {
                &&& e.spec_kind() == TiffErrorKind::InvalidIFD
                &&& spec_fields(bytes@, offset + 2, n_fields as nat, byte_order) is Err
            },
        }),
{
    proof {
        // the buffer is a slice, so every position below its length fits in usize
        assert(bytes@.len() == bytes.len());
    }
    let mut fields: Vec<Field> = Vec::new();
    let table = offset + 2;
    let mut i: usize = 0;
    while i < n_fields as usize
        invariant
            i <= n_fields as usize,
            table == offset + 2,
            offset + 2 + IFD_FIELD_LENGTH * (n_fields as int) <= bytes@.len(),
            bytes@.len() <= usize::MAX,
            spec_fields(bytes@, table as int, i as nat, byte_order) == Ok::<
                Seq<Field>,
                TiffErrorKind,
            >(fields@),
        decreases n_fields as int - i,
    {
        let pos = table + i * IFD_FIELD_LENGTH;
        match decode_field(bytes, pos, byte_order) {
            Ok(f) => {
                fields.push(f);
            },
            Err(e) => {
                proof {
                    lemma_spec_fields_err(
                        bytes@,
                        table as int,
                        i as nat,
                        n_fields as nat,
                        byte_order,
                    );
                }
                return Err(e);
            },
        };
        i = i + 1;
    }
    Ok(fields)
}

/// Reads the declared field count at `offset`.
pub fn get_n_fields(bytes: &[u8], offset: usize, byte_order: ByteOrder) -> (r: u16)
    requires
        offset + 2 <= bytes@.len(),
    ensures
        r == u16_at(bytes@, offset as int, byte_order),
{
    read_u16(bytes, offset, byte_order)
}

/// Reads the next-directory offset stored immediately after the field
/// table.
pub fn get_next_ifd_offset(bytes: &[u8], offset: usize, n_fields: u16, byte_order: ByteOrder) -> (r:
    u32)
    requires
        offset + 2 + IFD_FIELD_LENGTH * (n_fields as int) + 4 <= bytes@.len(),
    ensures
        r == u32_at(bytes@, offset + 2 + IFD_FIELD_LENGTH * (n_fields as int), byte_order),
{
    proof {
        // the buffer is a slice, so every position below its length fits in usize
        assert(bytes@.len() == bytes.len());
    }
    let pos = offset + 2 + (n_fields as usize) * IFD_FIELD_LENGTH;
    read_u32(bytes, pos, byte_order)
}

/// Fields the directory at `offset` declares beyond the floor that the
/// minimum directory length already accounts for.
pub open spec fn spec_extra_fields(n_fields: u16) -> int {
    if n_fields > MINIMUM_IFD_FIELDS {
        n_fields - MINIMUM_IFD_FIELDS
    } else {
        0
    }
}

/// Whether the buffer holds, from `offset` on, a minimal directory and
/// the full table that the declared field count implies.
pub open spec fn spec_ifd_in_bounds(b: Seq<u8>, offset: int, bo: ByteOrder) -> bool {
    &&& offset + MINIMUM_IFD_LENGTH <= b.len()
    &&& offset + MINIMUM_IFD_LENGTH + spec_extra_fields(u16_at(b, offset, bo)) * IFD_FIELD_LENGTH
        <= b.len()
}

/// Whether parsing the directory at `offset` succeeds: the length checks
/// hold and every declared field entry decodes.
pub open spec fn spec_ifd_ok(b: Seq<u8>, offset: int, bo: ByteOrder) -> bool {
    &&& spec_ifd_in_bounds(b, offset, bo)
    &&& spec_fields(b, offset + 2, u16_at(b, offset, bo) as nat, bo) is Ok
}

/// Validates and decodes the image file directory at `offset`. The
/// remaining buffer must hold a minimal directory and the full table
/// that the declared field count implies; any shortfall, unrecognized
/// field type code or overflowing size computation aborts the whole
/// parse with `InvalidIFD`. On success the directory holds exactly the
/// declared number of fields, in on-disk order, and the raw next-
/// directory offset found after the table.
pub fn parse_ifd(bytes: &[u8], offset: u32, byte_order: ByteOrder) -> (r: Result<
    ImageFileDirectory,
    TiffError,
>)
    ensures
        r is Ok <==> spec_ifd_ok(bytes@, offset as int, byte_order),
        (r matches Ok(d) ==> {
            let n = u16_at(bytes@, offset as int, byte_order);
            &&& d.n_fields == n
            &&& d.next_ifd_offset == u32_at(
                bytes@,
                offset + 2 + IFD_FIELD_LENGTH * (n as int),
                byte_order,
            )
            &&& Ok::<Seq<Field>, TiffErrorKind>(d.fields@) == spec_fields(
                bytes@,
                offset + 2,
                n as nat,
                byte_order,
            )
            &&& d.fields@.len() == n
        }),
        (r matches Err(e) ==> e.spec_kind() == TiffErrorKind::InvalidIFD),
{
    let n_bytes = bytes.len();
    if (offset as u64) + (MINIMUM_IFD_LENGTH as u64) > (n_bytes as u64) {
        return Err(TiffError::new(TiffErrorKind::InvalidIFD));
    }
    let off = offset as usize;
    let n_fields = get_n_fields(bytes, off, byte_order);
    let extra: u64 = if (n_fields as usize) > MINIMUM_IFD_FIELDS {
        (n_fields as u64) - (MINIMUM_IFD_FIELDS as u64)
    } else {
        0
    };
    if (offset as u64) + (MINIMUM_IFD_LENGTH as u64) + extra * (IFD_FIELD_LENGTH as u64) > (
    n_bytes as u64) {
        return Err(TiffError::new(TiffErrorKind::InvalidIFD));
    }
    let next_ifd_offset = get_next_ifd_offset(bytes, off, n_fields, byte_order);
    let fields = match get_fields(bytes, off, byte_order, n_fields) {
        Ok(fields) => fields,
        Err(e) => {
            return Err(e);
        },
    };
    proof {
        lemma_spec_fields_ok(bytes@, off + 2, n_fields as nat, byte_order);
    }
    Ok(ImageFileDirectory { n_fields, next_ifd_offset, fields })
}

} // verus!

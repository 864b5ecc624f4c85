use vstd::prelude::*;

verus! {

/// Classification of a parse failure. Parsing fails fast: the first
/// violated check decides the kind, and no partial result is produced.
#[derive(Clone, Copy, Debug, PartialEq, Eq, Structural)]
pub enum TiffErrorKind {
    /// The buffer is shorter than the 8-byte header, or the IFD offset
    /// leaves no room for a minimal directory.
    InvalidHeader,
    /// The first two bytes match neither recognized byte-order marker.
    InvalidByteOrder,
    /// The magic constant does not match the declared byte order.
    InvalidMagicBytes,
    /// The directory is too short for its declared field count, a field
    /// type code is unrecognized, or a size computation overflows.
    InvalidIFD,
}

/// A parse error carrying its classification.
#[derive(Clone, Copy, Debug)]
pub struct TiffError {
    kind: TiffErrorKind,
}

impl TiffError {
    /// The classification this error was created with.
    pub closed spec fn spec_kind(&self) -> TiffErrorKind {
        self.kind
    }

    pub fn new(kind: TiffErrorKind) -> (e: TiffError)
        ensures
            e.spec_kind() == kind,
    {
        TiffError { kind }
    }

    pub fn kind(&self) -> (k: TiffErrorKind)
        ensures
            k == self.spec_kind(),
    {
        self.kind
    }
}

} // verus!

use vstd::prelude::*;

verus! {

/// Errors raised while decoding DWG data.
#[derive(Debug, Clone, PartialEq, Eq)]
pub enum DxfError {
    /// The stream ended before the requested bytes could be read.
    UnexpectedEof,
    /// A handle declared more than eight payload bytes (the count is carried).
    HandleTooLong(usize),
    /// A byte read larger than the 16 MB sanity limit was requested.
    ReadTooLarge,
    /// The BitLong prefix `11` is not used by the format.
    InvalidBitLong,
    /// The BitDouble prefix `11` is not used by the format.
    InvalidBitDouble,
    /// A handle reference carried a code outside `{0..5, 6, 8, 0xA, 0xC}`.
    InvalidReferenceCode(u8),
    /// The six-byte version signature is not a supported DWG version.
    UnsupportedVersion(Vec<u8>),
    /// A structure of the file is malformed.
    InvalidFormat,
}

} // verus!

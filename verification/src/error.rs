use vstd::prelude::*;

verus! {

/// Failure conditions of a frame decode.
///
/// Every variant carries the byte offset at which the failing read began, so
/// that a caller can report a precise diagnostic.
#[derive(Clone, Copy, Debug, PartialEq, Eq, Structural)]
pub enum DecodeError {
    /// Fewer bytes (or bits) remained in the buffer than the field required.
    InsufficientData { offset: usize },
    /// After the fixed header, fewer bytes remained than the mandatory
    /// two-byte checksum, so the payload/trailer split is impossible.
    TruncatedFrame { offset: usize },
}

} // verus!

use vstd::prelude::*;

verus! {

/// Why a decode attempt was abandoned.
///
/// An error says that the bytes at hand already contradict the encoding
/// rules; waiting for more input cannot repair it. Running short of input is
/// never reported here, only as [`crate::Status::Partial`].
#[derive(Copy, Clone, PartialEq, Eq, Structural, Debug)]
pub enum Error {
    /// A quality-of-service level other than 0, 1 or 2.
    InvalidQoS,
    /// A string payload that is not well-formed UTF-8, or that holds the
    /// code point U+0000.
    Utf8,
}

} // verus!

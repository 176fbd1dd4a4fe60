use vstd::prelude::*;

verus! {

/// Why a byte buffer could not be decoded.
#[derive(Clone, Copy, Debug, PartialEq, Eq, Structural, Hash)]
pub enum DecodeError {
    /// Fewer bytes are available than a fixed-size field needs.
    TruncatedInput,
    /// A record declares more value bytes than the input still holds.
    TruncatedValue,
    /// A declared length is above `MAX_DECLARED_LENGTH`.
    OversizedDeclaredLength,
    /// Bytes that are too few to form a record header follow the last record.
    TrailingGarbage,
}

} // verus!

//! The closed error set of every decode path.

use vstd::prelude::*;

verus! {

/// Why a frame could not be decoded.
///
/// Every decoder is total over this set: a malformed frame yields exactly one
/// of these values and leaves no state behind, so a bad frame can never
/// corrupt the decoding of the frames that follow it.
#[derive(Clone, Copy, Debug, PartialEq, Eq, Structural)]
pub enum DecodeError {
    /// No known shape matches: an unknown field under a strict-schema kind,
    /// a missing required field, or a value of the wrong type.
    StructuralMismatch,
    /// A singular channel delivered zero records.
    EmptyPayload,
    /// A channel or method tag outside the known enumeration.
    UnrecognizedTag,
}

impl DeepView for DecodeError {
    type V = DecodeError;

    open spec fn deep_view(&self) -> DecodeError {
        *self
    }
}

impl DecodeError {
    /// A short human-readable description of the error.
    pub fn describe(&self) -> &'static str {
        match self {
            DecodeError::StructuralMismatch => "no known message shape matches the frame",
            DecodeError::EmptyPayload => "a singular channel delivered zero records",
            DecodeError::UnrecognizedTag => "channel or method tag outside the known set",
        }
    }
}

} // verus!

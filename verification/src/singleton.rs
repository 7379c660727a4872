//! The singleton normalizer.
//!
//! Singular channels (status, ticker, order-book) never legitimately emit
//! zero records, but the wire wraps their one logical record in a
//! one-element array for schema uniformity with the batched channels.  One
//! function unwraps that convention for all of them.

use vstd::prelude::*;

use crate::error::DecodeError;

verus! {

/// The first element of a non-empty sequence; [`DecodeError::EmptyPayload`]
/// on an empty one.
pub open spec fn spec_flatten<T>(s: Seq<T>) -> Result<T, DecodeError> {
    if s.len() == 0 {
        Err(DecodeError::EmptyPayload)
    } else {
        Ok(s[0])
    }
}

/// Unwrap a one-element (or longer) sequence of records into its first
/// record, deterministically; fail on an empty sequence.  Never panics.
pub fn flatten_vec<T>(v: Vec<T>) -> (r: Result<T, DecodeError>)
    ensures
        r == spec_flatten(v@),
{
    let mut v = v;
    if v.len() == 0 {
        Err(DecodeError::EmptyPayload)
    } else {
        Ok(v.remove(0))
    }
}

} // verus!

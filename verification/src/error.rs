//! Error taxonomy of the decoding and fetching layers.

use vstd::prelude::*;

verus! {

/// Why a payload could not be turned into a domain value.
#[derive(Clone, Copy, Debug, PartialEq, Eq)]
pub enum DecodeError {
    /// The payload does not have the expected shape.
    Malformed,
    /// A categorical risk code that maps to no risk category.
    UnknownCategory(i32),
    /// A required record or field is absent or unreadable.
    MissingField(&'static str),
}

/// Why a fetch ended without a value.
#[derive(Debug, PartialEq, Eq)]
pub enum FetchError {
    /// The transport failed; the detail is the transport's own message.
    Network(String),
    /// The response arrived but could not be decoded.
    Decode(DecodeError),
}

impl Clone for FetchError {
    fn clone(&self) -> (copy: FetchError)
        ensures
            copy == *self,
    {
        match self {
            FetchError::Network(detail) => FetchError::Network(detail.clone()),
            FetchError::Decode(error) => FetchError::Decode(*error),
        }
    }
}

} // verus!

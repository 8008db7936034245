//! The failures that decoding and validation report.

use vstd::prelude::*;

verus! {

/// Why a value was rejected.
#[derive(Debug, Clone, PartialEq, Eq)]
pub enum Error {
    /// A numeric field held neither a decimal literal in a string nor a JSON
    /// number.
    MalformedNumber,
    /// The wire tag of a closed enumeration is not one of its members.
    UnknownEnumVariant(String),
    /// The event tag of a WebSocket frame names no known event.
    UnknownEventType(String),
    /// A required key is absent from an object.
    MissingRequiredField(&'static str),
    /// A value has another JSON shape than the one its place asks for.
    UnexpectedShape,
    /// The `period` of an outbound query is not an allowed interval token.
    InvalidPeriod(String),
}

} // verus!

//! The failure values that decoding reports.

use vstd::prelude::*;

verus! {

/// The kind of JSON value that a known field was expected to hold.
#[derive(Clone, Copy, Debug, PartialEq, Eq, Structural)]
pub enum JsonKind {
    Bool,
    Integer,
    Text,
    Array,
    Object,
}

/// Why a payload could not be decoded.
#[derive(Clone, Copy, Debug, PartialEq, Eq)]
pub enum DecodeError {
    /// A wire integer that the named enumeration has no variant for.
    UnrecognizedCode { value: u64, enum_name: &'static str },
    /// A required field that the payload does not hold.
    MissingRequiredField { name: &'static str },
    /// A known field that is present with the wrong kind of value, or with
    /// an integer outside the field's range. The path is the field's name in
    /// the record that holds it, `$` for the record itself.
    MalformedField { path: &'static str, expected: JsonKind },
    /// An envelope without `data`, with `data` of the wrong kind, or without
    /// well-formed pagination where pagination is owed.
    EnvelopeShapeMismatch,
}

/// The view of a decoding result: the view of the value, the error as it is.
pub open spec fn lift<T: View>(r: Result<T, DecodeError>) -> Result<T::V, DecodeError> {
    match r {
        Ok(v) => Ok(v@),
        Err(e) => Err(e),
    }
}

} // verus!

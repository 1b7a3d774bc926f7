//! Why a payload failed to decode.
use vstd::prelude::*;
use crate::json::JsonKind;

verus! {

/// What a field was required to hold.
#[derive(Clone, Copy, Debug, PartialEq, Eq, Structural)]
pub enum Expected {
    Str,
    UInt,
    Bool,
    ObjectId,
    Timestamp,
    Object,
    Array,
}

/// A decode failure. No partial entity is ever produced alongside one.
#[derive(Clone, Debug, PartialEq, Eq)]
pub enum DecodeError {
    /// A required field is absent.
    MissingField(String),
    /// A field holds a value of the wrong kind: field, expected, actual.
    TypeMismatch(String, Expected, JsonKind),
    /// An enumerated field holds a string outside its token set: field, value.
    UnrecognizedEnumValue(String, String),
    /// The text is not a JSON document.
    MalformedJson,
}

/// A decode failure, with its texts as character sequences.
pub enum DecodeFailure {
    MissingField(Seq<char>),
    TypeMismatch(Seq<char>, Expected, JsonKind),
    UnrecognizedEnumValue(Seq<char>, Seq<char>),
    MalformedJson,
}

impl View for DecodeError {
    type V = DecodeFailure;

    open spec fn view(&self) -> DecodeFailure {
        match self {
            DecodeError::MissingField(f) => DecodeFailure::MissingField(f@),
            DecodeError::TypeMismatch(f, e, a) => DecodeFailure::TypeMismatch(f@, *e, *a),
            DecodeError::UnrecognizedEnumValue(f, v) => DecodeFailure::UnrecognizedEnumValue(
                f@,
                v@,
            ),
            DecodeError::MalformedJson => DecodeFailure::MalformedJson,
        }
    }
}

} // verus!

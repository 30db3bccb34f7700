//! Error types of the crate.

use vstd::prelude::*;

use crate::validation::Failure;

verus! {

/// Why a document tree does not have the shape the chosen schema version
/// demands. Raised before any validation begins.
#[derive(Debug, Clone)]
pub enum DecodeError {
    /// A required field is absent.
    MissingField(String),
    /// A field holds a value of the wrong kind.
    WrongType(String),
    /// A field is present that the schema does not allow.
    UnknownField(String),
    /// The version marker is absent or names another version.
    WrongVersion,
    /// A tagged value names a kind the schema does not know.
    UnknownVariant(String),
}

/// Error type wrapping over errors produced in this crate.
#[derive(Debug)]
pub enum Error {
    /// The document tree does not match the chosen schema version.
    Decode(DecodeError),
    /// The document decoded, but consistency rules failed; every failure
    /// is collected, in document order.
    Validation(Vec<Failure>),
    /// A string is not a valid hexadecimal colour.
    InvalidColor(String),
    /// General error.
    General(String),
}

} // verus!

//! Error objects carried by responses, and the failures of decoding.

use vstd::prelude::*;
use serde_json::Value;
use crate::field::Key;

verus! {

/// A JSON value that this library carries but never inspects.
#[verifier::external_type_specification]
#[verifier::external_body]
pub struct ExValue(Value);

/// The error object of a failed response.
#[derive(Debug, Clone, PartialEq)]
pub struct Error {
    /// The numeric error code.
    pub code: i64,
    /// A short description of the error.
    pub message: String,
    /// Additional data supplied by the peer, if any.
    pub data: Option<Value>,
}

/// What an [`Error`] stands for.
pub ghost struct ErrorView {
    pub code: i64,
    pub message: Seq<char>,
    pub data: Option<Value>,
}

impl View for Error {
    type V = ErrorView;

    open spec fn view(&self) -> ErrorView {
        ErrorView { code: self.code, message: self.message@, data: self.data }
    }
}

/// Why a list of wire members is not the envelope that was asked for.
#[derive(Debug, Clone, PartialEq, Eq)]
pub enum DecodeError {
    /// The version tag is not the one accepted literal.
    UnsupportedVersion { found: String, expected: String },
    /// The method name is not that of the method asked for.
    UnexpectedMethod { found: String, expected: String },
    /// A member that the envelope needs is absent.
    MissingField(Key),
    /// A member of the envelope occurs a second time.
    DuplicateField(Key),
    /// A response carries neither a result nor an error.
    MissingOutcome,
    /// A response carries more than one result or error.
    AmbiguousOutcome,
}

/// What a [`DecodeError`] stands for.
pub ghost enum DecodeErrorView {
    UnsupportedVersion { found: Seq<char>, expected: Seq<char> },
    UnexpectedMethod { found: Seq<char>, expected: Seq<char> },
    MissingField(Key),
    DuplicateField(Key),
    MissingOutcome,
    AmbiguousOutcome,
}

impl View for DecodeError {
    type V = DecodeErrorView;

    open spec fn view(&self) -> DecodeErrorView {
        match *self {
            DecodeError::UnsupportedVersion { found, expected } => {
                DecodeErrorView::UnsupportedVersion { found: found@, expected: expected@ }
            },
            DecodeError::UnexpectedMethod { found, expected } => {
                DecodeErrorView::UnexpectedMethod { found: found@, expected: expected@ }
            },
            DecodeError::MissingField(key) => DecodeErrorView::MissingField(key),
            DecodeError::DuplicateField(key) => DecodeErrorView::DuplicateField(key),
            DecodeError::MissingOutcome => DecodeErrorView::MissingOutcome,
            DecodeError::AmbiguousOutcome => DecodeErrorView::AmbiguousOutcome,
        }
    }
}

} // verus!

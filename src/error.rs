use vstd::prelude::*;

verus! {

/// What went wrong while decoding a record.
#[derive(Debug, PartialEq, Eq)]
pub enum ErrorKind {
    /// A key that the record requires is absent.
    MissingRequiredField,
    /// The record holds a key that it does not declare.
    UnrecognizedField,
    /// A value has the wrong kind of node for its field.
    TypeMismatch,
    /// A string that is none of the spellings of the field's enum.
    InvalidEnumValue(String),
    /// A string that does not parse as an absolute URL.
    MalformedUrl(url::ParseError),
}

/// A decoding failure: its kind and the key of the field where it occurred.
#[derive(Debug, PartialEq, Eq)]
pub struct DecodeError {
    pub kind: ErrorKind,
    pub key: String,
}

/// Declares the URL crate's syntax error so that it can travel in a `DecodeError`.
#[verifier::external_type_specification]
#[verifier::external_body]
pub struct ExParseError(url::ParseError);

/// Builds the error of kind `kind` for the field `key`.
pub fn error_at(kind: ErrorKind, key: &str) -> (r: DecodeError)
    ensures
        r.kind == kind,
        r.key@ == key@,
{
    DecodeError { kind, key: key.to_owned() }
}

} // verus!

//! Decode-time errors. Encoding never fails: every model value has a textual
//! representation.

use vstd::prelude::*;

verus! {

use vstd::string::StringExecFns;

/// Why decoding a cassette document failed. Each kind is terminal for the
/// whole decode: no partial result is produced.
#[derive(Debug, Clone, PartialEq)]
pub enum DecodeError {
    /// A required field was absent from a mapping; carries the field name.
    MissingField(String),
    /// A node did not have the shape a field requires (for example a
    /// non-numeric status code); carries the name of the offending field.
    TypeMismatch(String),
    /// An `http_version` token outside the known set; carries the token.
    UnknownVersion(String),
    /// A `recorded_at` text that is not an RFC 2822 date-time this library
    /// accepts; carries the raw text.
    InvalidTimestamp(String),
}

/// The mathematical value of a [`DecodeError`].
pub ghost enum DecodeErrorV {
    /// A required field was absent.
    MissingField(Seq<char>),
    /// A node had the wrong shape for its field.
    TypeMismatch(Seq<char>),
    /// An unknown `http_version` token.
    UnknownVersion(Seq<char>),
    /// A malformed `recorded_at` text.
    InvalidTimestamp(Seq<char>),
}

impl View for DecodeError {
    type V = DecodeErrorV;

    open spec fn view(&self) -> DecodeErrorV {
        match self {
            DecodeError::MissingField(s) => DecodeErrorV::MissingField(s@),
            DecodeError::TypeMismatch(s) => DecodeErrorV::TypeMismatch(s@),
            DecodeError::UnknownVersion(s) => DecodeErrorV::UnknownVersion(s@),
            DecodeError::InvalidTimestamp(s) => DecodeErrorV::InvalidTimestamp(s@),
        }
    }
}

impl DecodeError {
    /// A short human-readable description of the error kind, with the field
    /// name, token or raw text it carries.
    pub fn describe(&self) -> (r: String)
        ensures
            self@ matches DecodeErrorV::MissingField(s) ==> r@ == "missing field "@ + s,
            self@ matches DecodeErrorV::TypeMismatch(s) ==> r@ == "type mismatch at "@ + s,
            self@ matches DecodeErrorV::UnknownVersion(s) ==> r@ == "unknown version "@ + s,
            self@ matches DecodeErrorV::InvalidTimestamp(s) ==> r@ == "invalid timestamp "@ + s,
    {
        match self {
            DecodeError::MissingField(s) => concat_str("missing field ", s.as_str()),
            DecodeError::TypeMismatch(s) => concat_str("type mismatch at ", s.as_str()),
            DecodeError::UnknownVersion(s) => concat_str("unknown version ", s.as_str()),
            DecodeError::InvalidTimestamp(s) => concat_str("invalid timestamp ", s.as_str()),
        }
    }
}

/// Concatenate two text slices into an owned string.
fn concat_str(a: &str, b: &str) -> (r: String)
    ensures
        r@ == a@ + b@,
{
    let mut out: String = a.to_owned();
    out.append(b);
    out
}

/// The value of a `Result` whose sides both have values.
pub open spec fn rview<T: View, E: View>(r: Result<T, E>) -> Result<T::V, E::V> {
    match r {
        Ok(t) => Ok(t@),
        Err(e) => Err(e@),
    }
}

} // verus!

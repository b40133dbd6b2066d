//! The closed set of failure kinds that every operation of this crate
//! reports through its `Result`.

use vstd::prelude::*;

verus! {

/// Every fallible operation of the mapping registry protocol returns one of
/// these kinds. `MappingNotFound` is an expected outcome of a lookup, not a
/// fault; the others describe rejected inputs, malformed wire data, or a
/// failure of the external ledger transport.
#[derive(Clone, Copy, Debug, PartialEq, Eq, Structural)]
pub enum VdrError {
    /// An identifier string does not match its format grammar.
    InvalidIdentifierFormat,
    /// A signature buffer has the wrong length.
    InvalidSignatureLength,
    /// Call data or an endorsement payload could not be serialized.
    EncodingError,
    /// Contract return bytes are malformed or truncated.
    DecodingError,
    /// A lookup succeeded but no mapping exists for the queried key.
    MappingNotFound,
    /// The external ledger client failed to serve a query or submission.
    LedgerQueryFailed,
    /// A supplied ledger-account signature does not match the payload.
    SignatureMismatch,
}

impl VdrError {
    /// A short stable name for the error kind, for callers that render errors.
    pub fn code(&self) -> (r: &'static str)
        ensures
            r@ == self.code_spec(),
    {
        match self {
            VdrError::InvalidIdentifierFormat => "invalid_identifier_format",
            VdrError::InvalidSignatureLength => "invalid_signature_length",
            VdrError::EncodingError => "encoding_error",
            VdrError::DecodingError => "decoding_error",
            VdrError::MappingNotFound => "mapping_not_found",
            VdrError::LedgerQueryFailed => "ledger_query_failed",
            VdrError::SignatureMismatch => "signature_mismatch",
        }
    }

    pub open spec fn code_spec(&self) -> Seq<char> {
        match self {
            VdrError::InvalidIdentifierFormat => "invalid_identifier_format"@,
            VdrError::InvalidSignatureLength => "invalid_signature_length"@,
            VdrError::EncodingError => "encoding_error"@,
            VdrError::DecodingError => "decoding_error"@,
            VdrError::MappingNotFound => "mapping_not_found"@,
            VdrError::LedgerQueryFailed => "ledger_query_failed"@,
            VdrError::SignatureMismatch => "signature_mismatch"@,
        }
    }
}

} // verus!

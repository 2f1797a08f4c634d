//! The closed error taxonomy of the verification pipeline.

use vstd::prelude::*;

verus! {

/// Classified outcome of a failed verification. Every failure of the
/// pipeline is one of these kinds, never an opaque string, so callers can
/// tell an expired token from a wrong audience or a bad signature.
#[derive(Clone, Copy, Debug, PartialEq, Eq, Structural)]
pub enum VerifyError {
    /// The project identifier was not supplied (empty).
    MissingConfiguration,
    /// The published key set could not be retrieved or parsed.
    KeyRetrievalFailed,
    /// The retrieved key set holds no keys.
    EmptyKeySet,
    /// No key in the set matches the token header's key identifier, or the
    /// header names no key identifier at all.
    UnknownKeyId,
    /// The token is not well formed: wrong segment count, bad base64url,
    /// bad JSON, or a claim field missing or of the wrong type.
    MalformedToken,
    /// The signature does not verify under the selected key.
    InvalidSignature,
    /// The token header names an algorithm other than RS256.
    AlgorithmMismatch,
    /// The `iss` claim does not equal the issuer derived from the project.
    InvalidIssuer,
    /// The `aud` claim does not equal the project identifier.
    InvalidAudience,
    /// The `sub` claim does not equal the expected subject.
    InvalidSubject,
    /// The verification time is at or past the `exp` claim.
    ExpiredToken,
    /// The selected key material could not be used as an RSA public key.
    Unclassified,
}

/// Classified outcome of a failed key selection.
#[derive(Clone, Copy, Debug, PartialEq, Eq, Structural)]
pub enum SelectionError {
    /// The key set holds no keys.
    EmptyKeySet,
    /// No key in the set matches the requested key identifier.
    UnknownKeyId,
}

/// How a failed key selection surfaces to the caller of the verifier.
pub open spec fn selection_as_verify_error(e: SelectionError) -> VerifyError {
    match e {
        SelectionError::EmptyKeySet => VerifyError::EmptyKeySet,
        SelectionError::UnknownKeyId => VerifyError::UnknownKeyId,
    }
}

/// The short stable code for each error kind.
pub open spec fn spec_code(e: VerifyError) -> Seq<char> {
    match e {
        VerifyError::MissingConfiguration => "missing-configuration"@,
        VerifyError::KeyRetrievalFailed => "key-retrieval-failed"@,
        VerifyError::EmptyKeySet => "empty-key-set"@,
        VerifyError::UnknownKeyId => "unknown-key-id"@,
        VerifyError::MalformedToken => "malformed-token"@,
        VerifyError::InvalidSignature => "invalid-signature"@,
        VerifyError::AlgorithmMismatch => "algorithm-mismatch"@,
        VerifyError::InvalidIssuer => "invalid-issuer"@,
        VerifyError::InvalidAudience => "invalid-audience"@,
        VerifyError::InvalidSubject => "invalid-subject"@,
        VerifyError::ExpiredToken => "expired-token"@,
        VerifyError::Unclassified => "unclassified"@,
    }
}

impl SelectionError {
    /// Widen a selection failure into the verifier's taxonomy.
    pub fn into_verify_error(self) -> (r: VerifyError)
        ensures
            r == selection_as_verify_error(self),
    {
        match self {
            SelectionError::EmptyKeySet => VerifyError::EmptyKeySet,
            SelectionError::UnknownKeyId => VerifyError::UnknownKeyId,
        }
    }
}

impl VerifyError {
    /// A short stable code naming the kind, for logging and diagnostics.
    pub fn code(&self) -> (r: &'static str)
        ensures
            r@ == spec_code(*self),
    {
        match self {
            VerifyError::MissingConfiguration => "missing-configuration",
            VerifyError::KeyRetrievalFailed => "key-retrieval-failed",
            VerifyError::EmptyKeySet => "empty-key-set",
            VerifyError::UnknownKeyId => "unknown-key-id",
            VerifyError::MalformedToken => "malformed-token",
            VerifyError::InvalidSignature => "invalid-signature",
            VerifyError::AlgorithmMismatch => "algorithm-mismatch",
            VerifyError::InvalidIssuer => "invalid-issuer",
            VerifyError::InvalidAudience => "invalid-audience",
            VerifyError::InvalidSubject => "invalid-subject",
            VerifyError::ExpiredToken => "expired-token",
            VerifyError::Unclassified => "unclassified",
        }
    }
}

} // verus!

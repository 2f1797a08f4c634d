//! The verification pipeline: key selection, signature validation and claim
//! validation, unified into one fallible operation.

use vstd::prelude::*;
use vstd::string::StringExecFns;

use crate::claims::Claims;
use crate::claims::ClaimsView;
use crate::errors::SelectionError;
use crate::errors::VerifyError;
use crate::keys::KeyEntry;
use crate::keys::select_key;
use crate::keys::spec_lookup;
use crate::token::PayloadView;
use crate::token::TokenPartsView;
use crate::token::parse_header;
use crate::token::parse_payload;
use crate::token::spec_header_of;
use crate::token::spec_payload_of;
use crate::token::spec_split3;
use crate::token::split3;

verus! {

// ---------------------------------------------------------------------------
// Names for what the outside signature check returns.
// ---------------------------------------------------------------------------

/// Whether the PEM text is accepted as an RSA public key.
pub uninterp spec fn rsa_pem_accepted(pem: Seq<char>) -> bool;

/// Whether `sig`, read as base64url, is a valid RS256 signature over the
/// bytes of `msg` under the RSA public key in `pem`.
pub uninterp spec fn rs256_signature_ok(sig: Seq<char>, msg: Seq<char>, pem: Seq<char>) -> bool;

/// The PEM text parses as usable RSA public key material.
pub open spec fn key_accepted(pem: Seq<char>) -> bool {
    rsa_pem_accepted(pem)
}

/// The token's signature segment verifies over its message under the key.
pub open spec fn signature_valid(parts: TokenPartsView, pem: Seq<char>) -> bool {
    rs256_signature_ok(parts.signature, parts.message, pem)
}

/// Relies on jsonwebtoken's `DecodingKey::from_rsa_pem` and
/// `crypto::verify` with the RS256 algorithm: checks the base64url
/// signature text over the message bytes under the PEM-encoded RSA public
/// key. `None` where the PEM is not usable key material; a signature whose
/// base64url text is malformed verifies as false. Both steps are
/// deterministic in their arguments, which is what the two names assert.
#[verifier::external_body]
fn rs256_verify(signature: &str, message: &str, pem: &str) -> (r: Option<bool>)
    ensures
        r is Some <==> rsa_pem_accepted(pem@),
        r matches Some(b) ==> b == rs256_signature_ok(signature@, message@, pem@),
{
    let key = jsonwebtoken::DecodingKey::from_rsa_pem(pem.as_bytes()).ok()?;
    match jsonwebtoken::crypto::verify(
        signature,
        message.as_bytes(),
        &key,
        jsonwebtoken::Algorithm::RS256,
    ) {
        Ok(b) => Some(b),
        Err(_) => Some(false),
    }
}

// ---------------------------------------------------------------------------
// Claim validation.
// ---------------------------------------------------------------------------

/// The issuer a token of `project` must name.
pub open spec fn spec_issuer(project: Seq<char>) -> Seq<char> {
    "https://securetoken.google.com/"@ + project
}

/// The first claim constraint `p` breaks, checked in the fixed order
/// expiry, audience, issuer, subject; `None` where every constraint holds.
/// The verification time must be strictly before `exp`; no leeway is
/// granted.
pub open spec fn spec_claim_error(
    p: PayloadView,
    subject: Seq<char>,
    project: Seq<char>,
    now: u64,
) -> Option<VerifyError> {
    if now >= p.claims.exp {
        Some(VerifyError::ExpiredToken)
    } else if p.claims.aud != project {
        Some(VerifyError::InvalidAudience)
    } else if p.iss != spec_issuer(project) {
        Some(VerifyError::InvalidIssuer)
    } else if p.claims.sub != subject {
        Some(VerifyError::InvalidSubject)
    } else {
        None
    }
}

/// Check the decoded claims against the validation parameters: audience
/// equal to the project identifier, issuer derived from it, subject equal
/// to the expected subject, and expiry strictly in the future. Returns the
/// first broken constraint, `None` where all hold.
pub fn validate_claims(
    iss: &str,
    claims: &Claims,
    expected_subject: &str,
    project_id: &str,
    now: u64,
) -> (r: Option<VerifyError>)
    ensures
        r == spec_claim_error(
            PayloadView { iss: iss@, claims: claims@ },
            expected_subject@,
            project_id@,
            now,
        ),
{
    if now >= claims.exp {
        return Some(VerifyError::ExpiredToken);
    }
    let project_owned = project_id.to_owned();
    if !(claims.aud == project_owned) {
        return Some(VerifyError::InvalidAudience);
    }
    let mut issuer = String::from_str("https://securetoken.google.com/");
    issuer.append(project_id);
    let iss_owned = iss.to_owned();
    if !(iss_owned == issuer) {
        return Some(VerifyError::InvalidIssuer);
    }
    let subject_owned = expected_subject.to_owned();
    if !(claims.sub == subject_owned) {
        return Some(VerifyError::InvalidSubject);
    }
    None
}

// ---------------------------------------------------------------------------
// The pipeline.
// ---------------------------------------------------------------------------

/// The outcome of the stages after a key has been selected: signature
/// check, payload decoding, claim validation.
pub open spec fn spec_check_signed(
    parts: TokenPartsView,
    pem: Seq<char>,
    subject: Seq<char>,
    project: Seq<char>,
    now: u64,
) -> Result<ClaimsView, VerifyError> {
    if !key_accepted(pem) {
        Err(VerifyError::Unclassified)
    } else if !signature_valid(parts, pem) {
        Err(VerifyError::InvalidSignature)
    } else {
        match spec_payload_of(parts.payload) {
            None => Err(VerifyError::MalformedToken),
            Some(p) => match spec_claim_error(p, subject, project, now) {
                Some(e) => Err(e),
                None => Ok(p.claims),
            },
        }
    }
}

/// What verification returns, stage by stage: configuration check, key set
/// check, token decomposition, header checks, key selection, then
/// signature and claims. Every verified claim set this function returns is
/// the payload of the token itself.
pub open spec fn spec_verify(
    token: Seq<char>,
    subject: Seq<char>,
    project: Seq<char>,
    keys: Seq<KeyEntry>,
    now: u64,
) -> Result<ClaimsView, VerifyError> {
    if project.len() == 0 {
        Err(VerifyError::MissingConfiguration)
    } else if keys.len() == 0 {
        Err(VerifyError::EmptyKeySet)
    } else {
        match spec_split3(token) {
            None => Err(VerifyError::MalformedToken),
            Some(parts) => match spec_header_of(parts.header) {
                None => Err(VerifyError::MalformedToken),
                Some(h) => if h.alg != "RS256"@ {
                    Err(VerifyError::AlgorithmMismatch)
                } else {
                    match h.kid {
                        None => Err(VerifyError::UnknownKeyId),
                        Some(k) => match spec_lookup(keys, k) {
                            None => Err(VerifyError::UnknownKeyId),
                            Some(pem) => spec_check_signed(parts, pem, subject, project, now),
                        },
                    }
                },
            },
        }
    }
}

/// The view of a verification result.
pub open spec fn spec_result_view(r: Result<Claims, VerifyError>) -> Result<ClaimsView, VerifyError> {
    match r {
        Ok(c) => Ok(c@),
        Err(e) => Err(e),
    }
}

/// Verify `token` as a credential for `expected_subject` under
/// `project_id`, against the retrieved key set `keys`, at verification
/// time `now` (seconds since the epoch).
///
/// The pipeline is fail-fast: configuration, key set, token structure, the
/// header's algorithm (RS256 and nothing else), header-driven key
/// selection, the RS256 signature over `header.payload`, then the claims.
/// Each failure is classified; the result is exactly `spec_verify` on the
/// views of the arguments.
pub fn verify_token(
    token: &str,
    expected_subject: &str,
    project_id: &str,
    keys: &Vec<KeyEntry>,
    now: u64,
) -> (r: Result<Claims, VerifyError>)
    ensures
        spec_result_view(r) == spec_verify(token@, expected_subject@, project_id@, keys@, now),
{
    if project_id.is_empty() {
        return Err(VerifyError::MissingConfiguration);
    }
    if keys.len() == 0 {
        return Err(VerifyError::EmptyKeySet);
    }
    let parts = match split3(token) {
        Some(p) => p,
        None => {
            return Err(VerifyError::MalformedToken);
        },
    };
    let header = match parse_header(parts.header) {
        Some(h) => h,
        None => {
            return Err(VerifyError::MalformedToken);
        },
    };
    let rs256 = String::from_str("RS256");
    if !(header.alg == rs256) {
        return Err(VerifyError::AlgorithmMismatch);
    }
    let kid = match header.kid {
        Some(k) => k,
        None => {
            return Err(VerifyError::UnknownKeyId);
        },
    };
    let pem = match select_key(keys, kid.as_str()) {
        Ok(p) => p,
        Err(e) => {
            return Err(e.into_verify_error());
        },
    };
    let signature_fine = match rs256_verify(parts.signature, parts.message, pem.as_str()) {
        Some(b) => b,
        None => {
            return Err(VerifyError::Unclassified);
        },
    };
    if !signature_fine {
        return Err(VerifyError::InvalidSignature);
    }
    let payload = match parse_payload(parts.payload) {
        Some(p) => p,
        None => {
            return Err(VerifyError::MalformedToken);
        },
    };
    match validate_claims(payload.iss.as_str(), &payload.claims, expected_subject, project_id, now) {
        Some(e) => Err(e),
        None => Ok(payload.claims),
    }
}

} // verus!

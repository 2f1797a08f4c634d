//! Laws of the verification pipeline, stated over the same model that
//! `verify_token`'s contract uses, and proved from it.

use vstd::prelude::*;

use crate::claims::ClaimsView;
use crate::errors::VerifyError;
use crate::keys::KeyEntry;
use crate::keys::spec_lookup;
use crate::token::spec_header_of;
use crate::token::spec_payload_of;
use crate::token::spec_split3;
use crate::verify::key_accepted;
use crate::verify::signature_valid;
use crate::verify::spec_claim_error;
use crate::verify::spec_issuer;
use crate::verify::spec_verify;

verus! {

/// The stages before the signature check all pass: the project identifier
/// is configured, the key set is nonempty, the token has three segments,
/// its header decodes, names RS256 and a key identifier, and that
/// identifier is in the key set.
pub open spec fn reaches_signature_check(
    token: Seq<char>,
    project: Seq<char>,
    keys: Seq<KeyEntry>,
) -> bool {
    &&& project.len() > 0
    &&& keys.len() > 0
    &&& spec_split3(token) is Some
    &&& spec_header_of(spec_split3(token).unwrap().header) is Some
    &&& spec_header_of(spec_split3(token).unwrap().header).unwrap().alg == "RS256"@
    &&& spec_header_of(spec_split3(token).unwrap().header).unwrap().kid is Some
    &&& spec_lookup(
        keys,
        spec_header_of(spec_split3(token).unwrap().header).unwrap().kid.unwrap(),
    ) is Some
}

/// The key selected for `token` out of `keys`.
pub open spec fn selected_pem(token: Seq<char>, keys: Seq<KeyEntry>) -> Seq<char> {
    spec_lookup(
        keys,
        spec_header_of(spec_split3(token).unwrap().header).unwrap().kid.unwrap(),
    ).unwrap()
}

/// A well-formed token signed with a key of the retrieved set and meeting
/// every claim constraint verifies, and the claim set returned is the
/// token's own payload.
pub proof fn lemma_valid_token_accepted(
    token: Seq<char>,
    subject: Seq<char>,
    project: Seq<char>,
    keys: Seq<KeyEntry>,
    now: u64,
)
    requires
        reaches_signature_check(token, project, keys),
        key_accepted(selected_pem(token, keys)),
        signature_valid(spec_split3(token).unwrap(), selected_pem(token, keys)),
        spec_payload_of(spec_split3(token).unwrap().payload) is Some,
        spec_claim_error(
            spec_payload_of(spec_split3(token).unwrap().payload).unwrap(),
            subject,
            project,
            now,
        ) is None,
    ensures
        spec_verify(token, subject, project, keys, now) == Ok::<ClaimsView, VerifyError>(
            spec_payload_of(spec_split3(token).unwrap().payload).unwrap().claims,
        ),
{
}

/// A token whose header names any algorithm but RS256 — among them the
/// unsigned `none` — is rejected as an algorithm mismatch, before any key
/// or signature is looked at.
pub proof fn lemma_foreign_algorithm_rejected(
    token: Seq<char>,
    subject: Seq<char>,
    project: Seq<char>,
    keys: Seq<KeyEntry>,
    now: u64,
)
    requires
        project.len() > 0,
        keys.len() > 0,
        spec_split3(token) is Some,
        spec_header_of(spec_split3(token).unwrap().header) is Some,
        spec_header_of(spec_split3(token).unwrap().header).unwrap().alg != "RS256"@,
    ensures
        spec_verify(token, subject, project, keys, now) == Err::<ClaimsView, VerifyError>(
            VerifyError::AlgorithmMismatch,
        ),
{
}

/// A token whose signature does not verify under the selected key is
/// rejected as an invalid signature, whatever its payload says.
pub proof fn lemma_bad_signature_rejected(
    token: Seq<char>,
    subject: Seq<char>,
    project: Seq<char>,
    keys: Seq<KeyEntry>,
    now: u64,
)
    requires
        reaches_signature_check(token, project, keys),
        key_accepted(selected_pem(token, keys)),
        !signature_valid(spec_split3(token).unwrap(), selected_pem(token, keys)),
    ensures
        spec_verify(token, subject, project, keys, now) == Err::<ClaimsView, VerifyError>(
            VerifyError::InvalidSignature,
        ),
{
}

/// A token whose expiry is not strictly in the future is rejected as
/// expired, whatever its other claims say. (Claims are only read after
/// the signature has verified: a token that is both expired and
/// mis-signed is rejected for its signature.)
pub proof fn lemma_expired_token_rejected(
    token: Seq<char>,
    subject: Seq<char>,
    project: Seq<char>,
    keys: Seq<KeyEntry>,
    now: u64,
)
    requires
        reaches_signature_check(token, project, keys),
        key_accepted(selected_pem(token, keys)),
        signature_valid(spec_split3(token).unwrap(), selected_pem(token, keys)),
        spec_payload_of(spec_split3(token).unwrap().payload) is Some,
        now >= spec_payload_of(spec_split3(token).unwrap().payload).unwrap().claims.exp,
    ensures
        spec_verify(token, subject, project, keys, now) == Err::<ClaimsView, VerifyError>(
            VerifyError::ExpiredToken,
        ),
{
}

/// An unexpired token whose audience is not the configured project is
/// rejected for its audience, signature validity notwithstanding.
pub proof fn lemma_wrong_audience_rejected(
    token: Seq<char>,
    subject: Seq<char>,
    project: Seq<char>,
    keys: Seq<KeyEntry>,
    now: u64,
)
    requires
        reaches_signature_check(token, project, keys),
        key_accepted(selected_pem(token, keys)),
        signature_valid(spec_split3(token).unwrap(), selected_pem(token, keys)),
        spec_payload_of(spec_split3(token).unwrap().payload) is Some,
        now < spec_payload_of(spec_split3(token).unwrap().payload).unwrap().claims.exp,
        spec_payload_of(spec_split3(token).unwrap().payload).unwrap().claims.aud != project,
    ensures
        spec_verify(token, subject, project, keys, now) == Err::<ClaimsView, VerifyError>(
            VerifyError::InvalidAudience,
        ),
{
}

/// An unexpired token with the right audience and issuer but a subject
/// other than the expected one is rejected for its subject.
pub proof fn lemma_wrong_subject_rejected(
    token: Seq<char>,
    subject: Seq<char>,
    project: Seq<char>,
    keys: Seq<KeyEntry>,
    now: u64,
)
    requires
        reaches_signature_check(token, project, keys),
        key_accepted(selected_pem(token, keys)),
        signature_valid(spec_split3(token).unwrap(), selected_pem(token, keys)),
        spec_payload_of(spec_split3(token).unwrap().payload) is Some,
        now < spec_payload_of(spec_split3(token).unwrap().payload).unwrap().claims.exp,
        spec_payload_of(spec_split3(token).unwrap().payload).unwrap().claims.aud == project,
        spec_payload_of(spec_split3(token).unwrap().payload).unwrap().iss == spec_issuer(project),
        spec_payload_of(spec_split3(token).unwrap().payload).unwrap().claims.sub != subject,
    ensures
        spec_verify(token, subject, project, keys, now) == Err::<ClaimsView, VerifyError>(
            VerifyError::InvalidSubject,
        ),
{
}

/// An empty key set is refused as such whatever the token, subject or
/// time: the pipeline stops before the token is read, so no signature
/// check is attempted.
pub proof fn lemma_empty_key_set_rejected(
    token: Seq<char>,
    subject: Seq<char>,
    project: Seq<char>,
    keys: Seq<KeyEntry>,
    now: u64,
)
    requires
        project.len() > 0,
        keys.len() == 0,
    ensures
        spec_verify(token, subject, project, keys, now) == Err::<ClaimsView, VerifyError>(
            VerifyError::EmptyKeySet,
        ),
{
}

/// Verification is a function of the token, the subject, the project, the
/// retrieved key set and the clock reading: two runs over the same values
/// agree, and in particular a token accepted once is accepted again with
/// the identical claim set while the key set and clock are unchanged.
pub proof fn lemma_verify_idempotent(
    token: Seq<char>,
    subject: Seq<char>,
    project: Seq<char>,
    keys: Seq<KeyEntry>,
    now: u64,
    r1: Result<ClaimsView, VerifyError>,
    r2: Result<ClaimsView, VerifyError>,
)
    requires
        r1 == spec_verify(token, subject, project, keys, now),
        r2 == spec_verify(token, subject, project, keys, now),
    ensures
        r1 == r2,
        r1 matches Ok(c) ==> r2 == Ok::<ClaimsView, VerifyError>(c),
{
}

} // verus!

//! Verification of provider-signed identity tokens.
//!
//! A backend receives a bearer token (three dot-separated base64url segments)
//! together with the user identifier it expects the token to speak for. This
//! crate decides whether the token is a genuine, unexpired, correctly scoped
//! credential for that user: it selects the public key named by the token's
//! header from the provider's published key set, checks the RS256 signature
//! over `header.payload`, and validates the issuer, audience, subject and
//! expiry claims, returning either the decoded claim set or a classified
//! error.
//!
//! Fetching the published key set is I/O and stays outside this crate; the
//! caller hands the retrieved keys in as plain values.

pub mod claims;
pub mod errors;
pub mod keys;
pub mod laws;
pub mod token;
pub mod verify;

pub use claims::Claims;
pub use claims::FirebaseClaims;
pub use errors::SelectionError;
pub use errors::VerifyError;
pub use keys::KeyEntry;
pub use keys::select_key;
pub use keys::select_key_arbitrary;
pub use token::HeaderFields;
pub use token::ParsedPayload;
pub use token::TokenParts;
pub use token::parse_header;
pub use token::parse_payload;
pub use token::split3;
pub use verify::validate_claims;
pub use verify::verify_token;

//! The decoded claim set of a verified token.

use vstd::prelude::*;

verus! {

/// Provider-specific claims nested under the `firebase` key of the payload.
#[derive(Debug, Clone, PartialEq, Eq)]
pub struct FirebaseClaims {
    /// How the subject signed in; pass-through, not validated.
    pub sign_in_provider: String,
}

impl View for FirebaseClaims {
    type V = Seq<char>;

    open spec fn view(&self) -> Seq<char> {
        self.sign_in_provider@
    }
}

/// The claim set carried by a token's payload.
///
/// A value of this type is only ever produced by a successful verification:
/// the pipeline decodes the payload after the signature has been checked and
/// returns the claims to the caller, who owns them thereafter.
#[derive(Debug, Clone, PartialEq, Eq)]
pub struct Claims {
    /// Audience; must equal the project identifier.
    pub aud: String,
    /// Subject; must equal the expected subject identifier.
    pub sub: String,
    /// Display name; pass-through, not validated.
    pub name: String,
    /// Email address; pass-through, not validated.
    pub email: String,
    /// Whether the email address is verified; pass-through, not validated.
    pub email_verified: bool,
    /// User identifier; pass-through, not validated.
    pub user_id: String,
    /// Avatar URL; pass-through, not validated.
    pub picture: String,
    /// Provider-specific claims; pass-through, not validated.
    pub firebase: FirebaseClaims,
    /// Expiry, in seconds since the epoch; the verification time must be
    /// strictly before it.
    pub exp: u64,
    /// Issued-at, in seconds since the epoch; informational.
    pub iat: u64,
}

/// The mathematical value of a claim set.
pub ghost struct ClaimsView {
    pub aud: Seq<char>,
    pub sub: Seq<char>,
    pub name: Seq<char>,
    pub email: Seq<char>,
    pub email_verified: bool,
    pub user_id: Seq<char>,
    pub picture: Seq<char>,
    pub sign_in_provider: Seq<char>,
    pub exp: u64,
    pub iat: u64,
}

impl View for Claims {
    type V = ClaimsView;

    open spec fn view(&self) -> ClaimsView {
        ClaimsView {
            aud: self.aud@,
            sub: self.sub@,
            name: self.name@,
            email: self.email@,
            email_verified: self.email_verified,
            user_id: self.user_id@,
            picture: self.picture@,
            sign_in_provider: self.firebase@,
            exp: self.exp,
            iat: self.iat,
        }
    }
}

} // verus!

//! Structural decomposition of a token: the three dot-separated segments,
//! and the JSON documents carried by the header and payload segments.

use vstd::prelude::*;

use crate::claims::Claims;
use crate::claims::ClaimsView;
use crate::claims::FirebaseClaims;

verus! {

// ---------------------------------------------------------------------------
// Names for what the outside decoders return.
// ---------------------------------------------------------------------------

/// What base64url decoding without padding yields on `s`; `None` where `s`
/// is not valid unpadded base64url text.
pub uninterp spec fn b64url_decoded(s: Seq<char>) -> Option<Seq<u8>>;

/// The value of the string field named `key` where `doc` is a JSON object
/// whose field `key` holds a string; `None` otherwise.
pub uninterp spec fn json_str_field(doc: Seq<u8>, key: Seq<char>) -> Option<Seq<char>>;

/// The value of the field named `key` where `doc` is a JSON object whose
/// field `key` holds an unsigned 64-bit integer; `None` otherwise.
pub uninterp spec fn json_u64_field(doc: Seq<u8>, key: Seq<char>) -> Option<u64>;

/// The value of the field named `key` where `doc` is a JSON object whose
/// field `key` holds a boolean; `None` otherwise.
pub uninterp spec fn json_bool_field(doc: Seq<u8>, key: Seq<char>) -> Option<bool>;

/// The value of the string field named `inner` of the object held by the
/// field named `outer` of the JSON object `doc`; `None` where any of that
/// is missing or of another type.
pub uninterp spec fn json_nested_str_field(doc: Seq<u8>, outer: Seq<char>, inner: Seq<char>) -> Option<Seq<char>>;

// ---------------------------------------------------------------------------
// Trusted decoders.
// ---------------------------------------------------------------------------

/// Relies on base64's `URL_SAFE_NO_PAD` engine: decodes unpadded base64url
/// text, refusing malformed input.
#[verifier::external_body]
fn b64url_decode(s: &str) -> (r: Option<Vec<u8>>)
    ensures
        r is Some <==> b64url_decoded(s@) is Some,
        r matches Some(v) ==> b64url_decoded(s@) == Some(v@),
{
    base64::Engine::decode(&base64::engine::general_purpose::URL_SAFE_NO_PAD, s).ok()
}

/// Relies on serde_json's `from_slice`, `Value::get` and `Value::as_str`:
/// parses `doc` as JSON and reads the string field named `key`.
#[verifier::external_body]
fn get_str_field(doc: &Vec<u8>, key: &str) -> (r: Option<String>)
    ensures
        r is Some <==> json_str_field(doc@, key@) is Some,
        r matches Some(s) ==> json_str_field(doc@, key@) == Some(s@),
{
    let v: serde_json::Value = serde_json::from_slice(doc.as_slice()).ok()?;
    v.get(key).and_then(|f| f.as_str()).map(|s| s.to_owned())
}

/// Relies on serde_json's `from_slice`, `Value::get` and `Value::as_u64`:
/// parses `doc` as JSON and reads the unsigned integer field named `key`.
#[verifier::external_body]
fn get_u64_field(doc: &Vec<u8>, key: &str) -> (r: Option<u64>)
    ensures
        r == json_u64_field(doc@, key@),
{
    let v: serde_json::Value = serde_json::from_slice(doc.as_slice()).ok()?;
    v.get(key).and_then(|f| f.as_u64())
}

/// Relies on serde_json's `from_slice`, `Value::get` and `Value::as_bool`:
/// parses `doc` as JSON and reads the boolean field named `key`.
#[verifier::external_body]
fn get_bool_field(doc: &Vec<u8>, key: &str) -> (r: Option<bool>)
    ensures
        r == json_bool_field(doc@, key@),
{
    let v: serde_json::Value = serde_json::from_slice(doc.as_slice()).ok()?;
    v.get(key).and_then(|f| f.as_bool())
}

/// Relies on serde_json's `from_slice`, `Value::get` and `Value::as_str`:
/// parses `doc` as JSON and reads the string field named `inner` of the
/// object held by the field named `outer`.
#[verifier::external_body]
fn get_nested_str_field(doc: &Vec<u8>, outer: &str, inner: &str) -> (r: Option<String>)
    ensures
        r is Some <==> json_nested_str_field(doc@, outer@, inner@) is Some,
        r matches Some(s) ==> json_nested_str_field(doc@, outer@, inner@) == Some(s@),
{
    let v: serde_json::Value = serde_json::from_slice(doc.as_slice()).ok()?;
    v.get(outer).and_then(|o| o.get(inner)).and_then(|f| f.as_str()).map(|s| s.to_owned())
}

// ---------------------------------------------------------------------------
// Splitting the compact serialization into its three segments.
// ---------------------------------------------------------------------------

/// `i` and `j` are the positions of the only two dots of `t`, in order.
pub open spec fn is_dot_split(t: Seq<char>, i: int, j: int) -> bool {
    0 <= i < j < t.len() && t[i] == '.' && t[j] == '.' && (forall|k: int|
        0 <= k < t.len() && t[k] == '.' ==> k == i || k == j)
}

/// `t` consists of exactly three dot-separated segments.
pub open spec fn has_three_segments(t: Seq<char>) -> bool {
    exists|i: int, j: int| is_dot_split(t, i, j)
}

/// The mathematical value of a token split into its segments. `message` is
/// the text the signature is computed over: everything before the second
/// dot.
pub ghost struct TokenPartsView {
    pub header: Seq<char>,
    pub payload: Seq<char>,
    pub signature: Seq<char>,
    pub message: Seq<char>,
}

/// The three segments of `t`, where `t` has exactly two dots.
pub open spec fn spec_split3(t: Seq<char>) -> Option<TokenPartsView> {
    if has_three_segments(t) {
        let (i, j) = choose|i: int, j: int| is_dot_split(t, i, j);
        Some(TokenPartsView {
            header: t.subrange(0, i),
            payload: t.subrange(i + 1, j),
            signature: t.subrange(j + 1, t.len() as int),
            message: t.subrange(0, j),
        })
    } else {
        None
    }
}

/// The two dot positions of a splittable token are unique.
proof fn lemma_dot_split_unique(t: Seq<char>, i1: int, j1: int, i2: int, j2: int)
    requires
        is_dot_split(t, i1, j1),
        is_dot_split(t, i2, j2),
    ensures
        i1 == i2 && j1 == j2,
{
    assert(i2 == i1 || i2 == j1);
    assert(j2 == i1 || j2 == j1);
    assert(i1 == i2 || i1 == j2);
    assert(j1 == i2 || j1 == j2);
}

/// A token split into its three segments; the segments borrow from the
/// token text.
pub struct TokenParts<'a> {
    pub header: &'a str,
    pub payload: &'a str,
    pub signature: &'a str,
    pub message: &'a str,
}

impl<'a> View for TokenParts<'a> {
    type V = TokenPartsView;

    open spec fn view(&self) -> TokenPartsView {
        TokenPartsView {
            header: self.header@,
            payload: self.payload@,
            signature: self.signature@,
            message: self.message@,
        }
    }
}

/// Split a token into its three dot-separated segments, refusing any other
/// segment count.
pub fn split3(token: &str) -> (r: Option<TokenParts<'_>>)
    ensures
        r is Some <==> has_three_segments(token@),
        r matches Some(p) ==> spec_split3(token@) == Some(p@),
{
    let n = token.unicode_len();
    let mut dots: Vec<usize> = Vec::new();
    let mut i: usize = 0;
    while i < n
        invariant
            n == token@.len(),
            i <= n,
            forall|m: int| 0 <= m < dots@.len() ==> dots@[m] < i && token@[dots@[m] as int] == '.',
            forall|m1: int, m2: int| 0 <= m1 < m2 < dots@.len() ==> dots@[m1] < dots@[m2],
            forall|k: int| 0 <= k < i && token@[k] == '.' ==> dots@.contains(k as usize),
        decreases n - i,
    {
        let ghost prev = dots@;
        let c = token.get_char(i);
        if c == '.' {
            dots.push(i);
        }
        proof {
            if token@[i as int] == '.' {
                assert(dots@ == prev.push(i as usize));
                assert forall|k: int| 0 <= k < i + 1 && token@[k] == '.' implies dots@.contains(
                    k as usize,
                ) by {
                    if k < i {
                        assert(prev.contains(k as usize));
                        let m = choose|m: int| 0 <= m < prev.len() && prev[m] == k as usize;
                        assert(dots@[m] == k as usize);
                    } else {
                        assert(dots@[dots@.len() - 1] == i as usize);
                    }
                }
            }
        }
        i = i + 1;
    }
    if dots.len() == 2 {
        let d0 = dots[0];
        let d1 = dots[1];
        proof {
            assert(is_dot_split(token@, d0 as int, d1 as int)) by {
                assert(forall|k: int| 0 <= k < token@.len() && token@[k] == '.'
                    ==> #[trigger] dots@.contains(k as usize));
                assert forall|k: int| 0 <= k < token@.len() && token@[k] == '.'
                    implies k == d0 as int || k == d1 as int by {
                    assert(dots@.contains(k as usize));
                    let m = choose|m: int| 0 <= m < dots@.len() && dots@[m] == k as usize;
                    assert(m == 0 || m == 1);
                }
            }
            assert(has_three_segments(token@));
            let (ci, cj) = choose|ci: int, cj: int| is_dot_split(token@, ci, cj);
            lemma_dot_split_unique(token@, ci, cj, d0 as int, d1 as int);
        }
        let header = token.substring_char(0, d0);
        let payload = token.substring_char(d0 + 1, d1);
        let signature = token.substring_char(d1 + 1, n);
        let message = token.substring_char(0, d1);
        Some(TokenParts { header, payload, signature, message })
    } else {
        proof {
            if has_three_segments(token@) {
                let (ci, cj) = choose|ci: int, cj: int| is_dot_split(token@, ci, cj);
                assert(dots@.contains(ci as usize));
                assert(dots@.contains(cj as usize));
                let mi = choose|m: int| 0 <= m < dots@.len() && dots@[m] == ci as usize;
                let mj = choose|m: int| 0 <= m < dots@.len() && dots@[m] == cj as usize;
                assert(mi != mj);
                if dots@.len() > 2 {
                    assert(token@[dots@[0] as int] == '.');
                    assert(token@[dots@[1] as int] == '.');
                    assert(token@[dots@[2] as int] == '.');
                    assert(dots@[0] as int == ci || dots@[0] as int == cj);
                    assert(dots@[1] as int == ci || dots@[1] as int == cj);
                    assert(dots@[2] as int == ci || dots@[2] as int == cj);
                    assert(dots@[0] < dots@[1] < dots@[2]);
                    assert(false);
                }
            }
        }
        None
    }
}

// ---------------------------------------------------------------------------
// The header document.
// ---------------------------------------------------------------------------

/// The mathematical value of the fields read from a token header.
pub ghost struct HeaderView {
    pub alg: Seq<char>,
    pub kid: Option<Seq<char>>,
}

/// The fields of the header document carried by segment `seg`: its
/// algorithm name and, where present, the identifier of the signing key.
/// `None` where the segment is not base64url or its document names no
/// algorithm.
pub open spec fn spec_header_of(seg: Seq<char>) -> Option<HeaderView> {
    match b64url_decoded(seg) {
        None => None,
        Some(doc) => match json_str_field(doc, "alg"@) {
            None => None,
            Some(alg) => Some(HeaderView { alg, kid: json_str_field(doc, "kid"@) }),
        },
    }
}

/// The fields read from a token header.
pub struct HeaderFields {
    pub alg: String,
    pub kid: Option<String>,
}

impl View for HeaderFields {
    type V = HeaderView;

    open spec fn view(&self) -> HeaderView {
        HeaderView {
            alg: self.alg@,
            kid: match self.kid {
                Some(k) => Some(k@),
                None => None,
            },
        }
    }
}

/// Decode the header segment and read its algorithm name and key
/// identifier.
pub fn parse_header(seg: &str) -> (r: Option<HeaderFields>)
    ensures
        r is Some <==> spec_header_of(seg@) is Some,
        r matches Some(h) ==> spec_header_of(seg@) == Some(h@),
{
    let doc = match b64url_decode(seg) {
        Some(d) => d,
        None => {
            return None;
        },
    };
    let alg = match get_str_field(&doc, "alg") {
        Some(a) => a,
        None => {
            return None;
        },
    };
    let kid = get_str_field(&doc, "kid");
    Some(HeaderFields { alg, kid })
}

// ---------------------------------------------------------------------------
// The payload document.
// ---------------------------------------------------------------------------

/// The mathematical value of a decoded payload: the issuer claim, checked
/// against the expected issuer, and the claim set handed to the caller.
pub ghost struct PayloadView {
    pub iss: Seq<char>,
    pub claims: ClaimsView,
}

/// The claim fields of the JSON document `doc`, or `None` where any
/// required field is missing or of the wrong type.
pub open spec fn spec_payload_fields(doc: Seq<u8>) -> Option<PayloadView> {
    if json_str_field(doc, "iss"@) is Some && json_str_field(doc, "aud"@) is Some
        && json_str_field(doc, "sub"@) is Some && json_str_field(doc, "name"@) is Some
        && json_str_field(doc, "email"@) is Some && json_bool_field(doc, "email_verified"@) is Some
        && json_str_field(doc, "user_id"@) is Some && json_str_field(doc, "picture"@) is Some
        && json_nested_str_field(doc, "firebase"@, "sign_in_provider"@) is Some
        && json_u64_field(doc, "exp"@) is Some && json_u64_field(doc, "iat"@) is Some {
        Some(PayloadView {
            iss: json_str_field(doc, "iss"@).unwrap(),
            claims: ClaimsView {
                aud: json_str_field(doc, "aud"@).unwrap(),
                sub: json_str_field(doc, "sub"@).unwrap(),
                name: json_str_field(doc, "name"@).unwrap(),
                email: json_str_field(doc, "email"@).unwrap(),
                email_verified: json_bool_field(doc, "email_verified"@).unwrap(),
                user_id: json_str_field(doc, "user_id"@).unwrap(),
                picture: json_str_field(doc, "picture"@).unwrap(),
                sign_in_provider: json_nested_str_field(doc, "firebase"@, "sign_in_provider"@).unwrap(),
                exp: json_u64_field(doc, "exp"@).unwrap(),
                iat: json_u64_field(doc, "iat"@).unwrap(),
            },
        })
    } else {
        None
    }
}

/// The decoded payload of segment `seg`: `None` where the segment is not
/// base64url text or its document lacks a required claim.
pub open spec fn spec_payload_of(seg: Seq<char>) -> Option<PayloadView> {
    match b64url_decoded(seg) {
        None => None,
        Some(doc) => spec_payload_fields(doc),
    }
}

/// A decoded payload: the issuer claim beside the claim set.
#[derive(Debug)]
pub struct ParsedPayload {
    pub iss: String,
    pub claims: Claims,
}

impl View for ParsedPayload {
    type V = PayloadView;

    open spec fn view(&self) -> PayloadView {
        PayloadView { iss: self.iss@, claims: self.claims@ }
    }
}

/// Decode the payload segment and read every claim the verifier or the
/// caller needs; any missing or mistyped field refuses the payload.
pub fn parse_payload(seg: &str) -> (r: Option<ParsedPayload>)
    ensures
        r is Some <==> spec_payload_of(seg@) is Some,
        r matches Some(p) ==> spec_payload_of(seg@) == Some(p@),
{
    let doc = match b64url_decode(seg) {
        Some(d) => d,
        None => {
            return None;
        },
    };
    let iss = match get_str_field(&doc, "iss") {
        Some(v) => v,
        None => {
            return None;
        },
    };
    let aud = match get_str_field(&doc, "aud") {
        Some(v) => v,
        None => {
            return None;
        },
    };
    let sub = match get_str_field(&doc, "sub") {
        Some(v) => v,
        None => {
            return None;
        },
    };
    let name = match get_str_field(&doc, "name") {
        Some(v) => v,
        None => {
            return None;
        },
    };
    let email = match get_str_field(&doc, "email") {
        Some(v) => v,
        None => {
            return None;
        },
    };
    let email_verified = match get_bool_field(&doc, "email_verified") {
        Some(v) => v,
        None => {
            return None;
        },
    };
    let user_id = match get_str_field(&doc, "user_id") {
        Some(v) => v,
        None => {
            return None;
        },
    };
    let picture = match get_str_field(&doc, "picture") {
        Some(v) => v,
        None => {
            return None;
        },
    };
    let sign_in_provider = match get_nested_str_field(&doc, "firebase", "sign_in_provider") {
        Some(v) => v,
        None => {
            return None;
        },
    };
    let exp = match get_u64_field(&doc, "exp") {
        Some(v) => v,
        None => {
            return None;
        },
    };
    let iat = match get_u64_field(&doc, "iat") {
        Some(v) => v,
        None => {
            return None;
        },
    };
    Some(ParsedPayload {
        iss,
        claims: Claims {
            aud,
            sub,
            name,
            email,
            email_verified,
            user_id,
            picture,
            firebase: FirebaseClaims { sign_in_provider },
            exp,
            iat,
        },
    })
}

} // verus!

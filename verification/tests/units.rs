use firebase_jwt_rs::Claims;
use firebase_jwt_rs::FirebaseClaims;
use firebase_jwt_rs::KeyEntry;
use firebase_jwt_rs::SelectionError;
use firebase_jwt_rs::VerifyError;
use firebase_jwt_rs::parse_header;
use firebase_jwt_rs::parse_payload;
use firebase_jwt_rs::select_key;
use firebase_jwt_rs::select_key_arbitrary;
use firebase_jwt_rs::split3;
use firebase_jwt_rs::validate_claims;

const PROJECT: &str = "demo-project";
const ISSUER: &str = "https://securetoken.google.com/demo-project";
const SUBJECT: &str = "user-42";
const EXP: u64 = 4102444800;
const IAT: u64 = 1699999000;
const NOW: u64 = 1760000000;

fn b64url(data: &str) -> String {
    base64::Engine::encode(&base64::engine::general_purpose::URL_SAFE_NO_PAD, data)
}

fn sample_claims() -> Claims {
    Claims {
        aud: PROJECT.to_string(),
        sub: SUBJECT.to_string(),
        name: "Ada Lovelace".to_string(),
        email: "ada@example.com".to_string(),
        email_verified: true,
        user_id: SUBJECT.to_string(),
        picture: "https://example.com/ada.png".to_string(),
        firebase: FirebaseClaims { sign_in_provider: "password".to_string() },
        exp: EXP,
        iat: IAT,
    }
}

fn payload_json() -> String {
    let mut firebase = serde_json::Map::new();
    firebase.insert(
        "sign_in_provider".to_string(),
        serde_json::Value::String("password".to_string()),
    );
    let mut m = serde_json::Map::new();
    m.insert("iss".to_string(), serde_json::Value::String(ISSUER.to_string()));
    m.insert("aud".to_string(), serde_json::Value::String(PROJECT.to_string()));
    m.insert("sub".to_string(), serde_json::Value::String(SUBJECT.to_string()));
    m.insert("name".to_string(), serde_json::Value::String("Ada Lovelace".to_string()));
    m.insert("email".to_string(), serde_json::Value::String("ada@example.com".to_string()));
    m.insert("email_verified".to_string(), serde_json::Value::Bool(true));
    m.insert("user_id".to_string(), serde_json::Value::String(SUBJECT.to_string()));
    m.insert(
        "picture".to_string(),
        serde_json::Value::String("https://example.com/ada.png".to_string()),
    );
    m.insert("firebase".to_string(), serde_json::Value::Object(firebase));
    m.insert("exp".to_string(), serde_json::Value::Number(serde_json::Number::from(EXP)));
    m.insert("iat".to_string(), serde_json::Value::Number(serde_json::Number::from(IAT)));
    serde_json::to_string(&serde_json::Value::Object(m)).unwrap()
}

#[test]
fn split3_three_segments() {
    let parts = split3("aa.bb.cc").unwrap();
    assert_eq!(parts.header, "aa");
    assert_eq!(parts.payload, "bb");
    assert_eq!(parts.signature, "cc");
    assert_eq!(parts.message, "aa.bb");
}

#[test]
fn split3_empty_segments() {
    let parts = split3("..").unwrap();
    assert_eq!(parts.header, "");
    assert_eq!(parts.payload, "");
    assert_eq!(parts.signature, "");
    assert_eq!(parts.message, ".");
}

#[test]
fn split3_wrong_segment_counts() {
    assert!(split3("").is_none());
    assert!(split3("abc").is_none());
    assert!(split3("a.b").is_none());
    assert!(split3("a.b.c.d").is_none());
}

#[test]
fn parse_header_reads_alg_and_kid() {
    let seg = b64url("{\"alg\":\"RS256\",\"kid\":\"kid-one\",\"typ\":\"JWT\"}");
    let h = parse_header(&seg).unwrap();
    assert_eq!(h.alg, "RS256");
    assert_eq!(h.kid, Some("kid-one".to_string()));
}

#[test]
fn parse_header_without_kid() {
    let seg = b64url("{\"alg\":\"none\"}");
    let h = parse_header(&seg).unwrap();
    assert_eq!(h.alg, "none");
    assert_eq!(h.kid, None);
}

#[test]
fn parse_header_refuses_bad_input() {
    assert!(parse_header("!!!").is_none());
    assert!(parse_header(&b64url("not json")).is_none());
    assert!(parse_header(&b64url("{\"kid\":\"k\"}")).is_none());
}

#[test]
fn parse_payload_reads_every_claim() {
    let seg = b64url(&payload_json());
    let p = parse_payload(&seg).unwrap();
    assert_eq!(p.iss, ISSUER);
    assert_eq!(p.claims.aud, PROJECT);
    assert_eq!(p.claims.sub, SUBJECT);
    assert_eq!(p.claims.name, "Ada Lovelace");
    assert_eq!(p.claims.email, "ada@example.com");
    assert!(p.claims.email_verified);
    assert_eq!(p.claims.user_id, SUBJECT);
    assert_eq!(p.claims.picture, "https://example.com/ada.png");
    assert_eq!(p.claims.firebase.sign_in_provider, "password");
    assert_eq!(p.claims.exp, EXP);
    assert_eq!(p.claims.iat, IAT);
}

#[test]
fn parse_payload_refuses_missing_claim() {
    let without_email = payload_json().replace("\"email\":\"ada@example.com\",", "");
    let seg = b64url(&without_email);
    assert!(parse_payload(&seg).is_none());
}

#[test]
fn parse_payload_refuses_bad_base64() {
    assert!(parse_payload("?!").is_none());
}

fn key_set() -> Vec<KeyEntry> {
    vec![
        KeyEntry { kid: "kid-one".to_string(), pem: "pem-one".to_string() },
        KeyEntry { kid: "kid-two".to_string(), pem: "pem-two".to_string() },
    ]
}

#[test]
fn select_key_matches_kid() {
    assert_eq!(select_key(&key_set(), "kid-one"), Ok("pem-one".to_string()));
    assert_eq!(select_key(&key_set(), "kid-two"), Ok("pem-two".to_string()));
}

#[test]
fn select_key_unknown_kid() {
    assert_eq!(select_key(&key_set(), "kid-three"), Err(SelectionError::UnknownKeyId));
}

#[test]
fn select_key_empty_set() {
    assert_eq!(select_key(&Vec::new(), "kid-one"), Err(SelectionError::EmptyKeySet));
}

#[test]
fn select_key_arbitrary_prefers_second() {
    assert_eq!(select_key_arbitrary(&key_set()), Ok("pem-two".to_string()));
    let one = vec![KeyEntry { kid: "kid-one".to_string(), pem: "pem-one".to_string() }];
    assert_eq!(select_key_arbitrary(&one), Ok("pem-one".to_string()));
    assert_eq!(select_key_arbitrary(&Vec::new()), Err(SelectionError::EmptyKeySet));
}

#[test]
fn validate_claims_accepts_matching_claims() {
    assert_eq!(validate_claims(ISSUER, &sample_claims(), SUBJECT, PROJECT, NOW), None);
}

#[test]
fn validate_claims_expiry_checked_first() {
    let c = sample_claims();
    assert_eq!(
        validate_claims(ISSUER, &c, SUBJECT, PROJECT, EXP),
        Some(VerifyError::ExpiredToken),
    );
    let mut wrong_aud = sample_claims();
    wrong_aud.aud = "other-project".to_string();
    assert_eq!(
        validate_claims(ISSUER, &wrong_aud, SUBJECT, PROJECT, EXP),
        Some(VerifyError::ExpiredToken),
    );
}

#[test]
fn validate_claims_wrong_audience() {
    let mut c = sample_claims();
    c.aud = "other-project".to_string();
    assert_eq!(
        validate_claims(ISSUER, &c, SUBJECT, PROJECT, NOW),
        Some(VerifyError::InvalidAudience),
    );
}

#[test]
fn validate_claims_wrong_issuer() {
    assert_eq!(
        validate_claims("https://securetoken.google.com/other", &sample_claims(), SUBJECT, PROJECT, NOW),
        Some(VerifyError::InvalidIssuer),
    );
}

#[test]
fn validate_claims_wrong_subject() {
    assert_eq!(
        validate_claims(ISSUER, &sample_claims(), "someone-else", PROJECT, NOW),
        Some(VerifyError::InvalidSubject),
    );
}

#[test]
fn error_codes_are_stable() {
    assert_eq!(VerifyError::MissingConfiguration.code(), "missing-configuration");
    assert_eq!(VerifyError::KeyRetrievalFailed.code(), "key-retrieval-failed");
    assert_eq!(VerifyError::EmptyKeySet.code(), "empty-key-set");
    assert_eq!(VerifyError::UnknownKeyId.code(), "unknown-key-id");
    assert_eq!(VerifyError::MalformedToken.code(), "malformed-token");
    assert_eq!(VerifyError::InvalidSignature.code(), "invalid-signature");
    assert_eq!(VerifyError::AlgorithmMismatch.code(), "algorithm-mismatch");
    assert_eq!(VerifyError::InvalidIssuer.code(), "invalid-issuer");
    assert_eq!(VerifyError::InvalidAudience.code(), "invalid-audience");
    assert_eq!(VerifyError::InvalidSubject.code(), "invalid-subject");
    assert_eq!(VerifyError::ExpiredToken.code(), "expired-token");
    assert_eq!(VerifyError::Unclassified.code(), "unclassified");
}

#[test]
fn selection_error_widens() {
    assert_eq!(SelectionError::EmptyKeySet.into_verify_error(), VerifyError::EmptyKeySet);
    assert_eq!(SelectionError::UnknownKeyId.into_verify_error(), VerifyError::UnknownKeyId);
}

use todo_auth::claims::{
    decode_token, decode_token_at, encode_token, encode_token_at, strip_bearer, Claimable, Claims,
    SECONDS_PER_DAY,
};
use todo_auth::errors::AuthError;
use todo_auth::hashing::{hash_password, verify_hash};
use todo_auth::models::{format_uuid, SlimUser};

const JWT_KEY: &[u8] = b"secure jwt secret";

fn server_secret() -> Vec<u8> {
    "0123".repeat(8).into_bytes()
}

fn sample_user() -> SlimUser {
    SlimUser {
        email: String::from("a@b.com"),
        id: 0x0123_4567_89ab_cdef_0123_4567_89ab_cdef,
        name: String::from("A"),
    }
}

#[test]
fn hash_then_verify_succeeds() {
    let secret = server_secret();
    let hash = hash_password("secret123", &secret).unwrap();
    assert_eq!(verify_hash(&hash, "secret123", &secret), Ok(true));
}

#[test]
fn verify_rejects_other_password() {
    let secret = server_secret();
    let hash = hash_password("secret123", &secret).unwrap();
    assert_eq!(verify_hash(&hash, "secret124", &secret), Ok(false));
    assert_eq!(verify_hash(&hash, "", &secret), Ok(false));
}

#[test]
fn verify_rejects_other_server_secret() {
    let secret = server_secret();
    let hash = hash_password("secret123", &secret).unwrap();
    assert_eq!(verify_hash(&hash, "secret123", b"another server secret"), Ok(false));
}

#[test]
fn verify_errors_on_malformed_hash() {
    let secret = server_secret();
    assert!(verify_hash("not an encoded hash", "secret123", &secret).is_err());
}

#[test]
fn hashes_of_same_password_differ_by_salt() {
    let secret = server_secret();
    let h1 = hash_password("secret123", &secret).unwrap();
    let h2 = hash_password("secret123", &secret).unwrap();
    assert_ne!(h1, h2);
    assert_eq!(verify_hash(&h2, "secret123", &secret), Ok(true));
}

#[test]
fn issued_token_round_trips() {
    let user = sample_user();
    let now: u64 = 1_700_000_000;
    let token = encode_token_at::<Claims>(&user, now, JWT_KEY).unwrap();
    let claims: Claims = decode_token_at(&token, now, JWT_KEY).unwrap();
    assert_eq!(claims.email, "a@b.com");
    assert_eq!(claims.id, format_uuid(user.id));
    assert_eq!(claims.exp, now + SECONDS_PER_DAY);
}

#[test]
fn issued_token_round_trips_with_bearer_prefix() {
    let user = sample_user();
    let now: u64 = 1_700_000_000;
    let token = encode_token_at::<Claims>(&user, now, JWT_KEY).unwrap();
    let with_prefix = format!("Bearer {}", token);
    let claims: Claims = decode_token_at(&with_prefix, now, JWT_KEY).unwrap();
    assert_eq!(claims.email, "a@b.com");
    assert_eq!(claims.exp, now + SECONDS_PER_DAY);
}

#[test]
fn clock_based_round_trip() {
    let user = sample_user();
    let token = encode_token::<Claims>(&user, JWT_KEY).unwrap();
    let claims: Claims = decode_token(&token, JWT_KEY).unwrap();
    assert_eq!(claims.email, "a@b.com");
}

#[test]
fn expired_token_fails_with_token_expired() {
    let user = sample_user();
    let now: u64 = 1_700_000_000;
    let token = encode_token_at::<Claims>(&user, now, JWT_KEY).unwrap();
    let exp = now + SECONDS_PER_DAY;
    let r: Result<Claims, AuthError> = decode_token_at(&token, exp, JWT_KEY);
    assert_eq!(r, Err(AuthError::TokenExpired));
    let r: Result<Claims, AuthError> = decode_token_at(&token, exp + 12345, JWT_KEY);
    assert_eq!(r, Err(AuthError::TokenExpired));
}

#[test]
fn long_expired_token_fails_under_real_clock() {
    let user = sample_user();
    let token = encode_token_at::<Claims>(&user, 0, JWT_KEY).unwrap();
    let r: Result<Claims, AuthError> = decode_token(&token, JWT_KEY);
    assert_eq!(r, Err(AuthError::TokenExpired));
}

#[test]
fn tampered_signature_fails_with_invalid_token() {
    let user = sample_user();
    let now: u64 = 1_700_000_000;
    let token = encode_token_at::<Claims>(&user, now, JWT_KEY).unwrap();
    let dot = token.rfind('.').unwrap();
    let mut bytes = token.into_bytes();
    let i = dot + 1;
    bytes[i] = if bytes[i] == b'A' { b'B' } else { b'A' };
    let tampered = String::from_utf8(bytes).unwrap();
    let r: Result<Claims, AuthError> = decode_token_at(&tampered, now, JWT_KEY);
    assert_eq!(r, Err(AuthError::InvalidToken));
}

#[test]
fn wrong_key_fails_with_invalid_token() {
    let user = sample_user();
    let now: u64 = 1_700_000_000;
    let token = encode_token_at::<Claims>(&user, now, JWT_KEY).unwrap();
    let r: Result<Claims, AuthError> = decode_token_at(&token, now, b"some other key");
    assert_eq!(r, Err(AuthError::InvalidToken));
}

#[test]
fn garbage_token_fails_with_invalid_token() {
    let r: Result<Claims, AuthError> = decode_token_at("definitely.not.a-token", 0, JWT_KEY);
    assert_eq!(r, Err(AuthError::InvalidToken));
    let r: Result<Claims, AuthError> = decode_token_at("", 0, JWT_KEY);
    assert_eq!(r, Err(AuthError::InvalidToken));
}

#[test]
fn wrong_payload_shape_fails_with_claims_error() {
    let mut payload = serde_json::Map::new();
    payload.insert(String::from("exp"), serde_json::Value::from(4_000_000_000u64));
    payload.insert(String::from("subject"), serde_json::Value::from("a@b.com"));
    let header = jsonwebtoken::Header::new(jsonwebtoken::Algorithm::HS256);
    let key = jsonwebtoken::EncodingKey::from_secret(JWT_KEY);
    let token = jsonwebtoken::encode(&header, &serde_json::Value::Object(payload), &key).unwrap();
    let r: Result<Claims, AuthError> = decode_token_at(&token, 0, JWT_KEY);
    assert_eq!(r, Err(AuthError::Claims));
}

#[test]
fn strip_bearer_removes_one_prefix() {
    assert_eq!(strip_bearer("Bearer abc"), "abc");
    assert_eq!(strip_bearer("Bearer Bearer abc"), "Bearer abc");
    assert_eq!(strip_bearer("abc"), "abc");
    assert_eq!(strip_bearer("Bear"), "Bear");
    assert_eq!(strip_bearer(""), "");
}

#[test]
fn claims_capability_round_trip() {
    let user = sample_user();
    let c = Claims::from_identity(&user, 42);
    let (email, id, exp) = c.wire_claims();
    assert_eq!(email, "a@b.com");
    assert_eq!(id, format_uuid(user.id));
    assert_eq!(exp, 42);
    let back = Claims::from_wire(email, id, exp);
    assert_eq!(back, c);
}

#[test]
fn empty_credential_still_round_trips() {
    let secret = server_secret();
    let hash = hash_password("", &secret).unwrap();
    assert_eq!(verify_hash(&hash, "", &secret), Ok(true));
    assert_eq!(verify_hash(&hash, "x", &secret), Ok(false));
}

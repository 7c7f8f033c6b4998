//! Signing and verification of a claims payload into and out of a compact
//! signed token.
//!
//! A token is the signed serialization of a claims payload binding an
//! identity's id and email to an expiration instant. The codec is generic
//! over the claims shape through the [`Claimable`] capability. Signing uses a
//! single fixed symmetric key with HMAC-SHA-256; verification accepts the
//! algorithm declared in the token's own header, strips an optional
//! `Bearer ` prefix, checks the signature before trusting any field, and then
//! checks the expiration instant.

use vstd::prelude::*;

use crate::errors::AuthError;
use crate::models::{uuid_str_of, SlimUser};

verus! {

use jsonwebtoken::{decode, decode_header, DecodingKey, Validation};
use serde_json::Value;

/// Tokens expire exactly one day after issuance.
pub const SECONDS_PER_DAY: u64 = 86400;

/// The mathematical content of a claims payload: the bound identity
/// attributes and the expiration instant (seconds since the Unix epoch).
pub ghost struct ClaimsView {
    pub email: Seq<char>,
    pub id: Seq<char>,
    pub exp: u64,
}

/// Why a token failed structural verification: it is malformed or its
/// signature does not verify, or the verified payload does not carry the
/// expected fields.
#[derive(Debug, PartialEq, Eq, Structural, Clone, Copy)]
pub enum TokenDefect {
    /// The token is structurally malformed or its signature is invalid.
    Malformed,
    /// The signature verified but the payload lacks the expected fields.
    Shape,
}

/// The compact signed token for the claims `c` under signing key `key`; what
/// `jsonwebtoken::encode` produces for an HS256 header and the payload
/// `{"email": .., "exp": .., "id": ..}`. A function of claims and key alone.
pub uninterp spec fn jwt_token_of(c: ClaimsView, key: Seq<u8>) -> Seq<char>;

/// What signature verification and payload extraction yield on `token` under
/// `key`, before any expiration check: the embedded claims, or the defect. A
/// function of token and key alone.
pub uninterp spec fn jwt_payload_of(token: Seq<char>, key: Seq<u8>) -> Result<
    ClaimsView,
    TokenDefect,
>;

/// The default claims payload: an identity's email and id bound to an
/// expiration instant.
#[derive(Debug, Clone, PartialEq)]
pub struct Claims {
    /// The bound email.
    pub email: String,
    /// The bound account identifier, in textual UUID form.
    pub id: String,
    /// The expiration instant (seconds since the Unix epoch).
    pub exp: u64,
}

impl View for Claims {
    type V = ClaimsView;

    open spec fn view(&self) -> ClaimsView {
        ClaimsView { email: self.email@, id: self.id@, exp: self.exp }
    }
}

/// The capability contract of a claims shape: it can be built from an
/// authenticated identity, reduced to the wire fields the token carries, and
/// rebuilt from verified wire fields.
pub trait Claimable: Sized {
    /// The identity attributes and expiry this claims value binds.
    spec fn claims_view(&self) -> ClaimsView;

    /// Build the claims shape from an authenticated identity and an
    /// expiration instant.
    fn from_identity(user: &SlimUser, exp: u64) -> (c: Self)
        ensures
            c.claims_view() == (ClaimsView { email: user.email@, id: uuid_str_of(user.id), exp }),
    ;

    /// The wire fields (email, id, expiry) of this claims value.
    fn wire_claims(&self) -> (w: (String, String, u64))
        ensures
            w.0@ == self.claims_view().email,
            w.1@ == self.claims_view().id,
            w.2 == self.claims_view().exp,
    ;

    /// Rebuild the claims shape from verified wire fields.
    fn from_wire(email: String, id: String, exp: u64) -> (c: Self)
        ensures
            c.claims_view() == (ClaimsView { email: email@, id: id@, exp }),
    ;
}

impl Claimable for Claims {
    open spec fn claims_view(&self) -> ClaimsView {
        self@
    }

    fn from_identity(user: &SlimUser, exp: u64) -> (c: Self) {
        Claims { email: user.email.clone(), id: crate::models::format_uuid(user.id), exp }
    }

    fn wire_claims(&self) -> (w: (String, String, u64)) {
        (self.email.clone(), self.id.clone(), self.exp)
    }

    fn from_wire(email: String, id: String, exp: u64) -> (c: Self) {
        Claims { email, id, exp }
    }
}

/// Relies on `jsonwebtoken::encode` with an HS256 header and a secret-keyed
/// `EncodingKey`: the token is a function of the payload fields and the key;
/// `jsonwebtoken::decode` under the same key verifies it and yields the same
/// fields back; and the compact form is base64url segments joined by `.`, so
/// it contains no space. The call cannot fail on these inputs: the key and
/// header are of the same (HMAC) family, HMAC-SHA-256 accepts a key of any
/// length, and the JSON and base64url serialization of a string-keyed object
/// of these three fields is infallible. This assumes the crate's default
/// HMAC provider; a process that installs a custom crypto provider is
/// outside this contract.
#[verifier::external_body]
fn jwt_encode_raw(email: &str, id: &str, exp: u64, key: &[u8]) -> (r: Result<String, ()>)
    ensures
        r matches Ok(t) ==> t@ == jwt_token_of((ClaimsView { email: email@, id: id@, exp }), key@),
        r matches Ok(t) ==> (jwt_payload_of(t@, key@) matches Ok(p) && p == (ClaimsView { email: email@, id: id@, exp })),
        r matches Ok(t) ==> !t@.contains(' '),
        r is Ok,
{
    let mut m = serde_json::Map::new();
    m.insert("email".to_string(), Value::from(email));
    m.insert("id".to_string(), Value::from(id));
    m.insert("exp".to_string(), Value::from(exp));
    let header = jsonwebtoken::Header::new(jsonwebtoken::Algorithm::HS256);
    let k = jsonwebtoken::EncodingKey::from_secret(key);
    jsonwebtoken::encode(&header, &Value::Object(m), &k).map_err(|_| ())
}

/// Relies on `jsonwebtoken::decode_header` and `jsonwebtoken::decode` (with
/// expiration validation disabled and no required claims) and on field access
/// on the decoded `serde_json::Value`: signature verification under the
/// algorithm the token's header declares and payload extraction are a
/// function of token and key alone. This assumes the crate's default HMAC
/// provider; a process that installs a custom crypto provider is outside
/// this contract.
#[verifier::external_body]
fn jwt_decode_raw(token: &str, key: &[u8]) -> (r: Result<Claims, TokenDefect>)
    ensures
        r matches Ok(c) ==> (jwt_payload_of(token@, key@) matches Ok(p) && p == c@),
        r matches Err(d) ==> (jwt_payload_of(token@, key@) matches Err(p) && p == d),
{
    let h = decode_header(token).map_err(|_| TokenDefect::Malformed)?;
    let mut v = Validation::new(h.alg);
    v.validate_exp = false;
    v.required_spec_claims = std::collections::HashSet::new();
    let k = DecodingKey::from_secret(key);
    let d = decode::<Value>(token, &k, &v).map_err(|_| TokenDefect::Malformed)?.claims;
    match (d.get("email").and_then(Value::as_str), d.get("id").and_then(Value::as_str), d.get("exp").and_then(Value::as_u64)) {
        (Some(e), Some(i), Some(x)) => Ok(Claims { email: e.to_string(), id: i.to_string(), exp: x }),
        _ => Err(TokenDefect::Shape),
    }
}

/// The view of `s` with one leading `Bearer ` prefix removed, if present.
pub open spec fn strip_bearer_spec(s: Seq<char>) -> Seq<char> {
    if s.len() >= 7 && s.subrange(0, 7) == "Bearer "@ {
        s.skip(7)
    } else {
        s
    }
}

/// Strip one optional leading `Bearer ` prefix from a header value.
pub fn strip_bearer(s: &str) -> (r: &str)
    ensures
        r@ == strip_bearer_spec(s@),
{
    let n = s.unicode_len();
    if n >= 7 {
        let c0 = s.get_char(0);
        let c1 = s.get_char(1);
        let c2 = s.get_char(2);
        let c3 = s.get_char(3);
        let c4 = s.get_char(4);
        let c5 = s.get_char(5);
        let c6 = s.get_char(6);
        let is_prefix = c0 == 'B' && c1 == 'e' && c2 == 'a' && c3 == 'r' && c4 == 'e' && c5 == 'r'
            && c6 == ' ';
        proof {
            reveal_strlit("Bearer ");
            if is_prefix {
                assert(s@.subrange(0, 7) =~= "Bearer "@);
            } else {
                assert(s@.subrange(0, 7) != "Bearer "@) by {
                    if s@.subrange(0, 7) == "Bearer "@ {
                        assert(s@.subrange(0, 7)[0] == 'B');
                        assert(s@.subrange(0, 7)[1] == 'e');
                        assert(s@.subrange(0, 7)[2] == 'a');
                        assert(s@.subrange(0, 7)[3] == 'r');
                        assert(s@.subrange(0, 7)[4] == 'e');
                        assert(s@.subrange(0, 7)[5] == 'r');
                        assert(s@.subrange(0, 7)[6] == ' ');
                    }
                }
            }
        }
        if is_prefix {
            let r = s.substring_char(7, n);
            proof {
                assert(r@ =~= s@.skip(7));
            }
            r
        } else {
            s
        }
    } else {
        s
    }
}

/// The claims bound into a token issued for `user` with expiration `exp`.
pub open spec fn issued_claims(user: SlimUser, exp: u64) -> ClaimsView {
    ClaimsView { email: user.email@, id: uuid_str_of(user.id), exp }
}

/// The outcome of verifying `token` at instant `now` under `key`: the
/// signature (under the algorithm the token declares) is checked first; a
/// structurally bad token is `InvalidToken`, a verified payload of the wrong
/// shape is `Claims`, a verified payload whose expiry is not in the future is
/// `TokenExpired`, and otherwise the embedded claims are returned.
pub open spec fn verify_outcome(token: Seq<char>, now: u64, key: Seq<u8>) -> Result<
    ClaimsView,
    AuthError,
> {
    match jwt_payload_of(strip_bearer_spec(token), key) {
        Ok(c) => if now < c.exp {
            Ok(c)
        } else {
            Err(AuthError::TokenExpired)
        },
        Err(TokenDefect::Malformed) => Err(AuthError::InvalidToken),
        Err(TokenDefect::Shape) => Err(AuthError::Claims),
    }
}

/// Build claims of shape `C` for `user` expiring one day after `now`, and
/// sign them into a compact token. It always succeeds: the token is exactly
/// the signed form of those claims, verification under the same key yields
/// them back, and the token contains no space (so bearer-prefix stripping
/// leaves it unchanged).
pub fn encode_token_at<C: Claimable>(user: &SlimUser, now: u64, key: &[u8]) -> (r: Result<
    String,
    AuthError,
>)
    requires
        now + SECONDS_PER_DAY <= u64::MAX,
    ensures
        r is Ok,
        r matches Ok(t) ==> t@ == jwt_token_of(
            issued_claims(*user, (now + SECONDS_PER_DAY) as u64),
            key@,
        ),
        r matches Ok(t) ==> jwt_payload_of(t@, key@) == Ok::<ClaimsView, TokenDefect>(
            issued_claims(*user, (now + SECONDS_PER_DAY) as u64),
        ),
        r matches Ok(t) ==> !t@.contains(' '),
{
    let exp = now + SECONDS_PER_DAY;
    let c = C::from_identity(user, exp);
    let (email, id, x) = c.wire_claims();
    match jwt_encode_raw(email.as_str(), id.as_str(), x, key) {
        Ok(t) => Ok(t),
        // Unreachable: signing always succeeds.
        Err(_) => Err(AuthError::SigningFailure),
    }
}

/// Verify `token` (with an optional `Bearer ` prefix) at instant `now` under
/// `key`, and rebuild the claims shape `C` from the verified payload. The
/// result is exactly [`verify_outcome`]: the signature is checked before any
/// field is trusted, and the expiration check follows it.
pub fn decode_token_at<C: Claimable>(token: &str, now: u64, key: &[u8]) -> (r: Result<
    C,
    AuthError,
>)
    ensures
        r matches Ok(c) ==> verify_outcome(token@, now, key@) == Ok::<ClaimsView, AuthError>(
            c.claims_view(),
        ),
        r matches Err(e) ==> verify_outcome(token@, now, key@) == Err::<ClaimsView, AuthError>(e),
{
    let stripped = strip_bearer(token);
    match jwt_decode_raw(stripped, key) {
        Ok(c) => {
            if now < c.exp {
                let Claims { email, id, exp } = c;
                Ok(C::from_wire(email, id, exp))
            } else {
                Err(AuthError::TokenExpired)
            }
        },
        Err(TokenDefect::Malformed) => Err(AuthError::InvalidToken),
        Err(TokenDefect::Shape) => Err(AuthError::Claims),
    }
}

/// Issue a token for `user` with the claims shape `C`, expiring one day after
/// the current instant. Whatever the clock read, a successful result is the
/// signed form of `user`'s claims for some expiry, verification yields them
/// back, and the token contains no space. The only failure is a clock
/// reading too large for a day to be added, which no real clock produces.
pub fn encode_token<C: Claimable>(user: &SlimUser, key: &[u8]) -> (r: Result<String, AuthError>)
    ensures
        r matches Ok(t) ==> exists|exp: u64|
            {
                &&& t@ == jwt_token_of(issued_claims(*user, exp), key@)
                &&& jwt_payload_of(t@, key@) == Ok::<ClaimsView, TokenDefect>(
                    issued_claims(*user, exp),
                )
                &&& !t@.contains(' ')
            },
        r matches Err(e) ==> e == AuthError::SigningFailure,
{
    let now = crate::models::current_unix_time();
    if now > u64::MAX - SECONDS_PER_DAY {
        Err(AuthError::SigningFailure)
    } else {
        let r = encode_token_at::<C>(user, now, key);
        proof {
            match &r {
                Ok(t) => {
                    let exp = (now + SECONDS_PER_DAY) as u64;
                    assert({
                        &&& t@ == jwt_token_of(issued_claims(*user, exp), key@)
                        &&& jwt_payload_of(t@, key@) == Ok::<ClaimsView, TokenDefect>(
                            issued_claims(*user, exp),
                        )
                        &&& !t@.contains(' ')
                    });
                },
                Err(_) => {},
            }
        }
        r
    }
}

/// Verify `token` (with an optional `Bearer ` prefix) at the current instant
/// under `key`, rebuilding the claims shape `C`. The result is exactly
/// [`verify_outcome`] for the instant the clock read.
pub fn decode_token<C: Claimable>(token: &str, key: &[u8]) -> (r: Result<C, AuthError>)
    ensures
        r matches Ok(c) ==> exists|now: u64|
            verify_outcome(token@, now, key@) == Ok::<ClaimsView, AuthError>(c.claims_view()),
        r matches Err(e) ==> exists|now: u64|
            verify_outcome(token@, now, key@) == Err::<ClaimsView, AuthError>(e),
{
    let now = crate::models::current_unix_time();
    let r = decode_token_at::<C>(token, now, key);
    proof {
        match &r {
            Ok(c) => {
                assert(verify_outcome(token@, now, key@) == Ok::<ClaimsView, AuthError>(
                    c.claims_view(),
                ));
            },
            Err(e) => {
                assert(verify_outcome(token@, now, key@) == Err::<ClaimsView, AuthError>(*e));
            },
        }
    }
    r
}

/// A token that contains no space is left unchanged by bearer-prefix
/// stripping: the prefix's last character is a space.
pub proof fn lemma_no_space_strip_identity(t: Seq<char>)
    requires
        !t.contains(' '),
    ensures
        strip_bearer_spec(t) == t,
{
    reveal_strlit("Bearer ");
    if t.len() >= 7 && t.subrange(0, 7) == "Bearer "@ {
        assert(t.subrange(0, 7)[6] == ' ');
        assert(t[6] == ' ');
        assert(t.contains(' ')) by {
            assert(0 <= 6 < t.len() && t[6] == ' ');
        }
    }
}

/// An expired token never verifies: whenever the signed payload embedded in a
/// token has an expiry that is not after `now`, verification at `now` fails
/// with `TokenExpired`.
pub proof fn lemma_expired_token_rejected(token: Seq<char>, now: u64, key: Seq<u8>)
    ensures
        (jwt_payload_of(strip_bearer_spec(token), key) matches Ok(c) && c.exp <= now)
            ==> verify_outcome(token, now, key) == Err::<ClaimsView, AuthError>(
            AuthError::TokenExpired,
        ),
{
}

/// An issued token verifies to exactly the claims it was issued with, at any
/// instant before its expiry: what [`encode_token_at`] promises of its result
/// suffices for [`verify_outcome`] to return the issued claims.
pub proof fn lemma_issued_token_verifies(t: Seq<char>, c: ClaimsView, now: u64, key: Seq<u8>)
    ensures
        (jwt_payload_of(t, key) == Ok::<ClaimsView, TokenDefect>(c) && !t.contains(' ') && now
            < c.exp) ==> verify_outcome(t, now, key) == Ok::<ClaimsView, AuthError>(c),
{
    if jwt_payload_of(t, key) == Ok::<ClaimsView, TokenDefect>(c) && !t.contains(' ') && now
        < c.exp {
        lemma_no_space_strip_identity(t);
    }
}

} // verus!

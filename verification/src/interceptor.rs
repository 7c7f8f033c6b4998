//! The request-interception stage.
//!
//! Every protected call passes through [`AuthMiddleware::call`]: it reads the
//! raw `Authorization` header, verifies the bearer token, and either forwards
//! the call with a decoded identity placed in the request-scoped context, or
//! short-circuits with a terminal HTTP-shaped error response. Exactly one of
//! the two branches happens per call, and the branch is fully decided before
//! any downstream handler runs.

use vstd::prelude::*;

use crate::claims::{decode_token_at, verify_outcome, Claims, ClaimsView};
use crate::errors::{AuthError, ErrorResponse, TodoApiError};

verus! {

use vstd::utf8::{decode_utf8, valid_utf8};

/// The identity a verified token places into the request context: the bound
/// email and account identifier (in textual UUID form).
#[derive(Debug, Clone, PartialEq)]
pub struct DecodedUser {
    /// The authenticated email.
    pub email: String,
    /// The authenticated account identifier, in textual UUID form.
    pub id: String,
}

impl From<Claims> for DecodedUser {
    fn from(c: Claims) -> (r: DecodedUser) {
        DecodedUser { email: c.email, id: c.id }
    }
}

impl vstd::std_specs::convert::FromSpecImpl<Claims> for DecodedUser {
    open spec fn obeys_from_spec() -> bool {
        true
    }

    open spec fn from_spec(c: Claims) -> DecodedUser {
        DecodedUser { email: c.email, id: c.id }
    }
}

/// Per-call scratch storage, owned by the single call that created it:
/// populated with the decoded identity on successful authentication, read by
/// downstream handlers, discarded when the call completes.
#[derive(Debug, Clone, PartialEq)]
pub struct RequestContext {
    /// The identity attached by the interceptor, if authentication succeeded.
    pub user: Option<DecodedUser>,
}

impl RequestContext {
    /// A fresh, empty per-call context.
    pub fn new() -> (r: RequestContext)
        ensures
            r.user is None,
    {
        RequestContext { user: None }
    }
}

/// The extractor downstream handlers use to pull the decoded identity out of
/// the request context without re-authenticating.
#[derive(Debug, Clone, PartialEq)]
pub struct Authenticated {
    user: DecodedUser,
}

impl Authenticated {
    /// Extract the decoded identity from the request context. Fails with
    /// `InvalidToken` if the interceptor did not run on this call
    /// (defensive: unreachable under correct pipeline wiring).
    pub fn from_request(ctx: &RequestContext) -> (r: Result<Authenticated, TodoApiError>)
        ensures
            ctx.user matches Some(u) ==> r matches Ok(a) && a.spec_user() == u,
            ctx.user is None ==> r == Err::<Authenticated, TodoApiError>(
                TodoApiError::AuthError(AuthError::InvalidToken),
            ),
    {
        match &ctx.user {
            Some(u) => Ok(
                Authenticated { user: DecodedUser { email: u.email.clone(), id: u.id.clone() } },
            ),
            None => Err(TodoApiError::AuthError(AuthError::InvalidToken)),
        }
    }

    /// The authenticated identity this extractor carries.
    pub fn user(&self) -> (r: &DecodedUser)
        ensures
            r == self.spec_user(),
    {
        &self.user
    }

    /// The authenticated identity this extractor carries.
    pub closed spec fn spec_user(&self) -> DecodedUser {
        self.user
    }
}

/// Relies on `core::str::from_utf8`: it accepts exactly the valid UTF-8 byte
/// sequences and decodes them to their character sequence.
#[verifier::external_body]
fn bytes_to_str(b: &[u8]) -> (r: Option<&str>)
    ensures
        r matches Some(s) ==> valid_utf8(b@) && s@ == decode_utf8(b@),
        r is None ==> !valid_utf8(b@),
{
    core::str::from_utf8(b).ok()
}

/// What the interceptor decides for a call whose raw `Authorization` header
/// is `header`, at instant `now`, under verification key `key`: the claims to
/// attach, or the error to reject with. No header is `NoAuthorizationHeader`;
/// a header that is not valid UTF-8 is `InvalidAuthorizationHeader`; anything
/// else is decided by token verification ([`verify_outcome`]).
pub open spec fn intercept_spec(header: Option<Seq<u8>>, now: u64, key: Seq<u8>) -> Result<
    ClaimsView,
    AuthError,
> {
    match header {
        Option::None => Err(AuthError::NoAuthorizationHeader),
        Option::Some(b) => if !valid_utf8(b) {
            Err(AuthError::InvalidAuthorizationHeader)
        } else {
            verify_outcome(decode_utf8(b), now, key)
        },
    }
}

/// The two terminal outcomes of the interception stage: forward the call with
/// a populated context, or short-circuit with an error response. This is a
/// gate, not a filter: exactly one branch happens per call.
#[derive(Debug, Clone, PartialEq)]
pub enum Gate {
    /// The call proceeds to the downstream handler with this context.
    Forward(RequestContext),
    /// The call is terminated with this HTTP-shaped error response; the
    /// downstream handler is never invoked.
    ShortCircuit(ErrorResponse),
}

/// The middleware factory registered on the protected scope.
#[derive(Debug, Clone, PartialEq)]
pub struct BasicAuth;

/// The interception stage itself, holding the token verification key loaded
/// once at startup.
#[derive(Debug, Clone)]
pub struct AuthMiddleware {
    /// The symmetric token verification key.
    pub jwt_secret: Vec<u8>,
}

impl BasicAuth {
    /// Build the interception stage around the given verification key.
    pub fn new_transform(&self, jwt_secret: Vec<u8>) -> (m: AuthMiddleware)
        ensures
            m.jwt_secret == jwt_secret,
    {
        AuthMiddleware { jwt_secret }
    }
}

impl AuthMiddleware {
    /// Intercept one inbound call at instant `now`: verify the bearer token
    /// in the raw `Authorization` header and either forward the call with the
    /// decoded identity in its context, or short-circuit with the error
    /// response for whatever failed. A call with no header never reaches the
    /// downstream handler: it is rejected with `NoAuthorizationHeader`.
    pub fn call(&self, auth_header: Option<&[u8]>, now: u64) -> (g: Gate)
        ensures
            g matches Gate::Forward(ctx) ==> {
                &&& intercept_spec(spec_header(auth_header), now, self.jwt_secret@) matches Ok(c)
                    && ctx.user matches Some(u) && u.email@ == c.email && u.id@ == c.id
            },
            g matches Gate::ShortCircuit(resp) ==> {
                &&& intercept_spec(spec_header(auth_header), now, self.jwt_secret@) matches Err(e)
                    && resp.status == TodoApiError::AuthError(e).status_code_spec()
                    && resp.body@ == TodoApiError::AuthError(e).body_spec()
            },
            auth_header is None ==> (g matches Gate::ShortCircuit(resp) && resp.status == 401
                && resp.body@ == TodoApiError::AuthError(
                AuthError::NoAuthorizationHeader,
            ).body_spec()),
    {
        match auth_header {
            None => Gate::ShortCircuit(
                TodoApiError::AuthError(AuthError::NoAuthorizationHeader).to_response(),
            ),
            Some(bytes) => match bytes_to_str(bytes) {
                None => Gate::ShortCircuit(
                    TodoApiError::AuthError(AuthError::InvalidAuthorizationHeader).to_response(),
                ),
                Some(s) => match decode_token_at::<Claims>(s, now, self.jwt_secret.as_slice()) {
                    Ok(claims) => Gate::Forward(
                        RequestContext { user: Some(DecodedUser::from(claims)) },
                    ),
                    Err(e) => Gate::ShortCircuit(TodoApiError::AuthError(e).to_response()),
                },
            },
        }
    }
}

/// The view of an optional raw header value.
pub open spec fn spec_header(h: Option<&[u8]>) -> Option<Seq<u8>> {
    match h {
        Option::None => Option::None,
        Option::Some(b) => Option::Some(b@),
    }
}

} // verus!

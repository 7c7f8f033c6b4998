//! Shared error taxonomy for the authentication and authorization layer.
//!
//! Every component reports failures through these kinds, and the outer API
//! layer maps each kind to a fixed HTTP status code and a structured error
//! body.

use vstd::prelude::*;

verus! {

/// Failures of token handling and authentication.
#[derive(Debug, PartialEq, Eq, Structural, Clone, Copy)]
pub enum AuthError {
    /// The verified payload does not have the expected claims shape.
    Claims,
    /// The token is structurally malformed or its signature does not verify.
    InvalidToken,
    /// The inbound call carries no `Authorization` header.
    NoAuthorizationHeader,
    /// The `Authorization` header value is not representable as a string.
    InvalidAuthorizationHeader,
    /// The token's embedded expiration instant is in the past.
    TokenExpired,
    /// The presented credential does not match the stored one.
    Unauthorized,
    /// The token could not be produced (internal serialization error).
    SigningFailure,
}

impl AuthError {
    /// The human-readable message for this error kind.
    pub open spec fn message_spec(&self) -> Seq<char> {
        match self {
            AuthError::Claims => "Error while Deserializing JWT"@,
            AuthError::InvalidToken => "Invalid JWT Token"@,
            AuthError::NoAuthorizationHeader => "No Authorization Header"@,
            AuthError::InvalidAuthorizationHeader => "Authorization header is not in valid format"@,
            AuthError::TokenExpired => "Token Expired"@,
            AuthError::Unauthorized => "Unauthorized"@,
            AuthError::SigningFailure => "Signing Failure"@,
        }
    }

    /// The human-readable message for this error kind.
    pub fn message(&self) -> (r: String)
        ensures
            r@ == self.message_spec(),
    {
        match self {
            AuthError::Claims => String::from_str("Error while Deserializing JWT"),
            AuthError::InvalidToken => String::from_str("Invalid JWT Token"),
            AuthError::NoAuthorizationHeader => String::from_str("No Authorization Header"),
            AuthError::InvalidAuthorizationHeader => String::from_str(
                "Authorization header is not in valid format",
            ),
            AuthError::TokenExpired => String::from_str("Token Expired"),
            AuthError::Unauthorized => String::from_str("Unauthorized"),
            AuthError::SigningFailure => String::from_str("Signing Failure"),
        }
    }
}

/// Failures surfaced by the API layer as structured responses.
#[derive(Debug, PartialEq, Clone)]
pub enum TodoApiError {
    /// An unexpected internal failure (hashing, signing, or downstream).
    InternalServerError,
    /// The request is malformed; the payload carries the reason.
    BadRequest(String),
    /// The backing store could not be reached.
    DatabaseConnectionError,
    /// An authentication failure, as classified by [`AuthError`].
    AuthError(AuthError),
    /// The named resource kind was not found for the requester.
    NotFound(String),
}

/// An HTTP-shaped error reply: a status code and a JSON body with a single
/// `error` field carrying the human-readable message.
#[derive(Debug, PartialEq, Clone)]
pub struct ErrorResponse {
    /// The HTTP status code.
    pub status: u16,
    /// The JSON body, `{"error":"<message>"}`.
    pub body: String,
}

impl TodoApiError {
    /// The fixed HTTP status for this error kind: authentication failures map
    /// to 401 (signing failures to 500), malformed requests to 400, missing
    /// resources to 404, and internal failures to 500.
    pub open spec fn status_code_spec(&self) -> u16 {
        match self {
            TodoApiError::InternalServerError => 500,
            TodoApiError::BadRequest(_) => 400,
            TodoApiError::DatabaseConnectionError => 500,
            TodoApiError::AuthError(AuthError::SigningFailure) => 500,
            TodoApiError::AuthError(_) => 401,
            TodoApiError::NotFound(_) => 404,
        }
    }

    /// Map this error kind to its fixed HTTP status code.
    pub fn status_code(&self) -> (r: u16)
        ensures
            r == self.status_code_spec(),
    {
        match self {
            TodoApiError::InternalServerError => 500,
            TodoApiError::BadRequest(_) => 400,
            TodoApiError::DatabaseConnectionError => 500,
            TodoApiError::AuthError(AuthError::SigningFailure) => 500,
            TodoApiError::AuthError(_) => 401,
            TodoApiError::NotFound(_) => 404,
        }
    }

    /// The human-readable message for this error kind.
    pub open spec fn message_spec(&self) -> Seq<char> {
        match self {
            TodoApiError::InternalServerError => "Internal Server Error"@,
            TodoApiError::BadRequest(m) => "BadRequest: "@ + m@,
            TodoApiError::DatabaseConnectionError => "Database Connection Error"@,
            TodoApiError::AuthError(e) => "Authentication Error :"@ + e.message_spec(),
            TodoApiError::NotFound(m) => m@ + " Not Found"@,
        }
    }

    /// The human-readable message for this error kind.
    pub fn message(&self) -> (r: String)
        ensures
            r@ == self.message_spec(),
    {
        match self {
            TodoApiError::InternalServerError => String::from_str("Internal Server Error"),
            TodoApiError::BadRequest(m) => String::from_str("BadRequest: ").concat(m.as_str()),
            TodoApiError::DatabaseConnectionError => String::from_str("Database Connection Error"),
            TodoApiError::AuthError(e) => String::from_str("Authentication Error :").concat(
                e.message().as_str(),
            ),
            TodoApiError::NotFound(m) => m.clone().concat(" Not Found"),
        }
    }

    /// The JSON body of the response for this error kind.
    pub open spec fn body_spec(&self) -> Seq<char> {
        "{\"error\":\""@ + self.message_spec() + "\"}"@
    }

    /// Produce the HTTP-shaped error reply for this error kind: the fixed
    /// status code and a JSON body with the message under a single `error`
    /// field.
    pub fn to_response(&self) -> (r: ErrorResponse)
        ensures
            r.status == self.status_code_spec(),
            r.body@ == self.body_spec(),
    {
        ErrorResponse {
            status: self.status_code(),
            body: String::from_str("{\"error\":\"").concat(self.message().as_str()).concat("\"}"),
        }
    }
}

/// Failures reported by the command-line client around the API.
#[derive(Debug, PartialEq, Clone)]
pub enum TodoError {
    /// A structured failure reported by the API itself.
    ApiError(TodoApiError),
    /// A transport failure, with the underlying message.
    HttpErrror(String),
    /// Any other failed operation.
    OperationError,
}

impl TodoError {
    /// The human-readable message for this error kind.
    pub open spec fn message_spec(&self) -> Seq<char> {
        match self {
            TodoError::ApiError(e) => e.message_spec(),
            TodoError::HttpErrror(m) => m@,
            TodoError::OperationError => "Some error is the"@,
        }
    }

    /// The human-readable message for this error kind.
    pub fn message(&self) -> (r: String)
        ensures
            r@ == self.message_spec(),
    {
        match self {
            TodoError::ApiError(e) => e.message(),
            TodoError::HttpErrror(m) => m.clone(),
            TodoError::OperationError => String::from_str("Some error is the"),
        }
    }
}

/// How the backing store reported a failed write.
#[derive(Debug, PartialEq, Clone)]
pub enum StoreFailure {
    /// A uniqueness constraint was violated; the payload carries the detail.
    UniqueViolation(String),
    /// Any other store-side failure.
    Other,
}

/// Fold a store-side failure into the API taxonomy: a uniqueness violation is
/// the caller's fault (bad request, carrying the store's detail message);
/// everything else is an internal failure.
pub fn store_failure_to_api(f: StoreFailure) -> (r: TodoApiError)
    ensures
        f matches StoreFailure::UniqueViolation(m) ==> r == TodoApiError::BadRequest(m),
        f matches StoreFailure::Other ==> r == TodoApiError::InternalServerError,
{
    match f {
        StoreFailure::UniqueViolation(m) => TodoApiError::BadRequest(m),
        StoreFailure::Other => TodoApiError::InternalServerError,
    }
}

} // verus!

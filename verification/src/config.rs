//! Process-wide immutable configuration.
//!
//! The server secret (for credential hashing) and the token signing key are
//! loaded once at startup by the outer layer and passed by reference into the
//! hashing and codec functions; nothing here is read from ambient global
//! state inside request handling.

use vstd::prelude::*;

verus! {

/// The read-only configuration the authentication layer works with.
#[derive(Debug, Clone)]
pub struct AuthConfig {
    /// The per-deployment secret mixed into credential hashes.
    pub server_secret: Vec<u8>,
    /// The symmetric key tokens are signed and verified with.
    pub jwt_secret: Vec<u8>,
}

impl AuthConfig {
    /// A well-formed configuration: the server secret fits the hashing
    /// algorithm's limit.
    pub open spec fn wf(&self) -> bool {
        self.server_secret@.len() <= u32::MAX
    }

    /// Build a configuration from the two secrets.
    pub fn new(server_secret: Vec<u8>, jwt_secret: Vec<u8>) -> (r: AuthConfig)
        requires
            server_secret@.len() <= u32::MAX,
        ensures
            r.server_secret == server_secret,
            r.jwt_secret == jwt_secret,
            r.wf(),
    {
        AuthConfig { server_secret, jwt_secret }
    }
}

} // verus!

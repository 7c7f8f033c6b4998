//! The account store and the login and signup flows.
//!
//! Login looks an account up by email, verifies the presented credential
//! against the stored hash, and issues a signed token; signup rejects an
//! already-taken email, hashes the credential, stores the new account, and
//! issues a token. A credential mismatch is `Unauthorized`; a missing account
//! and a taken email are bad requests, so callers can tell the cases apart.

use vstd::prelude::*;

use crate::claims::{encode_token_at, issued_claims, jwt_payload_of, jwt_token_of, Claims,
    SECONDS_PER_DAY};
use crate::config::AuthConfig;
use crate::dtos::{LoginDTO, LoginResponseDTO, SignupRequestDTO, SignupResponseDTO};
use crate::errors::{AuthError, TodoApiError};
use crate::hashing::{argon2_verify_outcome, hash_password, verify_hash};
use crate::models::{format_uuid, parse_uuid, slim_of, uuid_parse_of, uuid_str_of, SlimUser, User};
use crate::store::{is_not_found, is_uuid_bad_request};

verus! {

use vstd::utf8::encode_utf8;

/// Whether `e` is a bad request carrying exactly the message `msg`.
pub open spec fn is_bad_request(e: TodoApiError, msg: Seq<char>) -> bool {
    e matches TodoApiError::BadRequest(m) && m@ == msg
}

/// The most recently stored account whose email reads `email`, if any. The
/// store is scanned from the newest record backwards, as the backing store
/// returns the last matching row.
pub open spec fn last_user_with_email(s: Seq<User>, email: Seq<char>) -> Option<User>
    decreases s.len(),
{
    if s.len() == 0 {
        Option::None
    } else if s.last().email@ == email {
        Option::Some(s.last())
    } else {
        last_user_with_email(s.drop_last(), email)
    }
}

/// The most recently stored account with identifier `id`, if any.
pub open spec fn last_user_with_id(s: Seq<User>, id: u128) -> Option<User>
    decreases s.len(),
{
    if s.len() == 0 {
        Option::None
    } else if s.last().id == id {
        Option::Some(s.last())
    } else {
        last_user_with_id(s.drop_last(), id)
    }
}

/// An exact copy of a stored account record.
fn clone_user(u: &User) -> (r: User)
    ensures
        r == *u,
{
    User {
        id: u.id,
        email: u.email.clone(),
        created_at: u.created_at,
        updated_at: u.updated_at,
        password: u.password.clone(),
        name: u.name.clone(),
    }
}

/// The durable collection of accounts, keyed by email by the outer layer's
/// uniqueness constraint.
#[derive(Debug, Clone)]
pub struct AccountStore {
    /// The stored accounts, in insertion order.
    pub users: Vec<User>,
}

impl AccountStore {
    /// An empty store.
    pub fn new() -> (r: AccountStore)
        ensures
            r.users@ == Seq::<User>::empty(),
    {
        AccountStore { users: Vec::new() }
    }
}

/// The newest stored account whose email equals `email`, or `None`.
fn find_user_by_email(store: &AccountStore, email: &String) -> (r: Option<User>)
    ensures
        r == last_user_with_email(store.users@, email@),
{
    let mut j = store.users.len();
    proof {
        assert(store.users@.subrange(0, store.users@.len() as int) =~= store.users@);
    }
    while j > 0
        invariant
            j <= store.users@.len(),
            last_user_with_email(store.users@, email@) == last_user_with_email(
                store.users@.subrange(0, j as int),
                email@,
            ),
        decreases j,
    {
        let ghost prefix = store.users@.subrange(0, j as int);
        proof {
            assert(prefix.drop_last() =~= store.users@.subrange(0, j - 1));
            assert(prefix.last() == store.users@[j - 1]);
        }
        if store.users[j - 1].email == *email {
            return Some(clone_user(&store.users[j - 1]));
        }
        j -= 1;
    }
    proof {
        assert(store.users@.subrange(0, 0) =~= Seq::<User>::empty());
    }
    None
}

/// Log an account in: look it up by email, verify the credential against the
/// stored hash with the server secret, and on a match issue a one-day token.
/// An unknown email is `NotFound` for the account kind, a credential
/// mismatch is `Unauthorized`, a malformed stored hash is an internal
/// failure, and the successful reply carries the account id, its email, and
/// a token whose verification yields exactly that identity.
pub fn get_user(store: &AccountStore, user_data: LoginDTO, cfg: &AuthConfig, now: u64) -> (r:
    Result<LoginResponseDTO, TodoApiError>)
    requires
        now + SECONDS_PER_DAY <= u64::MAX,
    ensures
        last_user_with_email(store.users@, user_data.email@) is None ==> (r matches Err(e)
            && is_not_found(e, "User"@)),
        last_user_with_email(store.users@, user_data.email@) matches Some(u) ==> match
            argon2_verify_outcome(u.password@, encode_utf8(user_data.password@), cfg.server_secret@) {
            Option::None => r == Err::<LoginResponseDTO, TodoApiError>(
                TodoApiError::InternalServerError,
            ),
            Option::Some(false) => r == Err::<LoginResponseDTO, TodoApiError>(
                TodoApiError::AuthError(AuthError::Unauthorized),
            ),
            Option::Some(true) => login_success(r, u, cfg, now),
        },
{
    match find_user_by_email(store, &user_data.email) {
        None => Err(TodoApiError::NotFound(String::from_str("User"))),
        Some(user) => {
            match verify_hash(
                user.password.as_str(),
                user_data.password.as_str(),
                cfg.server_secret.as_slice(),
            ) {
                Err(_) => Err(TodoApiError::InternalServerError),
                Ok(false) => Err(TodoApiError::AuthError(AuthError::Unauthorized)),
                Ok(true) => {
                    let slim = SlimUser::from(user);
                    match encode_token_at::<Claims>(&slim, now, cfg.jwt_secret.as_slice()) {
                        Ok(token) => Ok(
                            LoginResponseDTO {
                                id: format_uuid(slim.id),
                                email: slim.email,
                                token,
                            },
                        ),
                        // Unreachable: token building always succeeds.
                        Err(e) => Err(TodoApiError::AuthError(e)),
                    }
                },
            }
        },
    }
}

/// What a successful login reply for account `u` promises: the reply carries
/// `u`'s email and textual id, and a token that is the signed claims of `u`
/// expiring one day after `now`, whose verification yields those claims back.
pub open spec fn login_success(
    r: Result<LoginResponseDTO, TodoApiError>,
    u: User,
    cfg: &AuthConfig,
    now: u64,
) -> bool {
    r matches Ok(resp) && {
        let c = issued_claims(slim_of(u), (now + SECONDS_PER_DAY) as u64);
        &&& resp.email == u.email
        &&& resp.id@ == uuid_str_of(u.id)
        &&& resp.token@ == jwt_token_of(c, cfg.jwt_secret@)
        &&& jwt_payload_of(resp.token@, cfg.jwt_secret@) == Ok::<_, crate::claims::TokenDefect>(c)
        &&& !resp.token@.contains(' ')
    }
}

/// What a completed signup promises: the store grew by exactly one account
/// carrying the requested name and email and a stored hash that verifies the
/// requested credential, and the reply carries that account's identity and a
/// token whose verification yields it.
pub open spec fn signup_recorded(
    old_users: Seq<User>,
    new_users: Seq<User>,
    user_data: SignupRequestDTO,
    cfg: &AuthConfig,
    nu: User,
) -> bool {
    &&& new_users == old_users.push(nu)
    &&& nu.email == user_data.email
    &&& nu.name == user_data.name
    &&& argon2_verify_outcome(nu.password@, encode_utf8(user_data.password@), cfg.server_secret@)
        == Some(true)
}

/// Sign an account up: reject an already-taken email as a bad request, hash
/// the credential with the server secret, issue a one-day token for the new
/// account, and store it. Every failure leaves the store unchanged; on
/// success the reply carries the new account's identity and a token whose
/// verification yields it, and the store holds exactly one new account whose
/// stored hash verifies the requested credential.
pub fn insert_new_user(
    store: &mut AccountStore,
    user_data: SignupRequestDTO,
    cfg: &AuthConfig,
    now: u64,
) -> (r: Result<SignupResponseDTO, TodoApiError>)
    requires
        cfg.wf(),
        now + SECONDS_PER_DAY <= u64::MAX,
    ensures
        last_user_with_email(old(store).users@, user_data.email@) is Some ==> (r matches Err(e)
            && is_bad_request(e, "User Already Exists"@)),
        (last_user_with_email(old(store).users@, user_data.email@) is None
            && encode_utf8(user_data.password@).len() > u32::MAX) ==> r == Err::<
            SignupResponseDTO,
            TodoApiError,
        >(TodoApiError::InternalServerError),
        (last_user_with_email(old(store).users@, user_data.email@) is None
            && encode_utf8(user_data.password@).len() <= u32::MAX) ==> r is Ok,
        r is Err ==> final(store).users@ == old(store).users@,
        r matches Ok(resp) ==> exists|nu: User|
            {
                &&& #[trigger] signup_recorded(
                    old(store).users@,
                    final(store).users@,
                    user_data,
                    cfg,
                    nu,
                )
                &&& resp.email == nu.email
                &&& resp.id@ == uuid_str_of(nu.id)
                &&& resp.token@ == jwt_token_of(
                    issued_claims(slim_of(nu), (now + SECONDS_PER_DAY) as u64),
                    cfg.jwt_secret@,
                )
                &&& jwt_payload_of(resp.token@, cfg.jwt_secret@) == Ok::<
                    _,
                    crate::claims::TokenDefect,
                >(issued_claims(slim_of(nu), (now + SECONDS_PER_DAY) as u64))
                &&& !resp.token@.contains(' ')
            },
{
    match find_user_by_email(store, &user_data.email) {
        Some(_) => {
            return Err(TodoApiError::BadRequest(String::from_str("User Already Exists")));
        },
        None => {},
    }
    if user_data.password.as_str().as_bytes().len() > (u32::MAX as usize) {
        return Err(TodoApiError::InternalServerError);
    }
    let hashed = match hash_password(user_data.password.as_str(), cfg.server_secret.as_slice()) {
        Ok(h) => h,
        Err(e) => {
            return Err(e);
        },
    };
    let new_user = User::from_details(user_data.name, user_data.email, hashed);
    let slim = SlimUser {
        email: new_user.email.clone(),
        id: new_user.id,
        name: new_user.name.clone(),
    };
    let token = match encode_token_at::<Claims>(&slim, now, cfg.jwt_secret.as_slice()) {
        Ok(t) => t,
        // Unreachable: token building always succeeds.
        Err(e) => {
            return Err(TodoApiError::AuthError(e));
        },
    };
    let ghost old_users = store.users@;
    store.users.push(clone_user(&new_user));
    proof {
        assert(signup_recorded(old_users, store.users@, user_data, cfg, new_user));
    }
    Ok(SignupResponseDTO { email: slim.email, id: format_uuid(slim.id), token })
}

/// Look an account up by its textual identifier. An unparseable identifier is
/// a bad request; an unknown identifier is `NotFound` for the account kind.
pub fn get_user_by_id(store: &AccountStore, user_id: &str) -> (r: Result<User, TodoApiError>)
    ensures
        uuid_parse_of(user_id@) is None ==> (r matches Err(e) && is_uuid_bad_request(e)),
        uuid_parse_of(user_id@) matches Some(uid) ==> match last_user_with_id(store.users@, uid) {
            Option::Some(u) => r matches Ok(found) && found == u,
            Option::None => r matches Err(e) && is_not_found(e, "User"@),
        },
{
    let uid = match parse_uuid(user_id) {
        Some(u) => u,
        None => {
            return Err(TodoApiError::BadRequest(String::from_str("Error while parsing uuid")));
        },
    };
    let mut j = store.users.len();
    proof {
        assert(store.users@.subrange(0, store.users@.len() as int) =~= store.users@);
    }
    while j > 0
        invariant
            j <= store.users@.len(),
            uuid_parse_of(user_id@) == Some(uid),
            last_user_with_id(store.users@, uid) == last_user_with_id(
                store.users@.subrange(0, j as int),
                uid,
            ),
        decreases j,
    {
        let ghost prefix = store.users@.subrange(0, j as int);
        proof {
            assert(prefix.drop_last() =~= store.users@.subrange(0, j - 1));
            assert(prefix.last() == store.users@[j - 1]);
        }
        if store.users[j - 1].id == uid {
            return Ok(clone_user(&store.users[j - 1]));
        }
        j -= 1;
    }
    proof {
        assert(store.users@.subrange(0, 0) =~= Seq::<User>::empty());
    }
    Err(TodoApiError::NotFound(String::from_str("User")))
}

} // verus!

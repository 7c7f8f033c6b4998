//! The data model of the resource collection: user accounts, their slim
//! authenticated view, and the todo records they own.
//!
//! Record identifiers are UUIDs carried as their 128-bit value; instants are
//! seconds since the Unix epoch. Formatting and parsing of identifiers, fresh
//! identifier generation and the clock are the only outside calls here, each
//! behind a trusted wrapper.

use vstd::prelude::*;

verus! {

/// The 128-bit value of the UUID that `s` denotes, if `s` is a well-formed
/// textual UUID; what `uuid::Uuid::parse_str` accepts and returns.
pub uninterp spec fn uuid_parse_of(s: Seq<char>) -> Option<u128>;

/// The hyphenated lower-case textual form of the UUID with 128-bit value `u`;
/// what formatting a `uuid::Uuid` produces.
pub uninterp spec fn uuid_str_of(u: u128) -> Seq<char>;

/// Relies on `uuid::Uuid::parse_str`: parsing is a function of the string
/// alone; `Uuid::as_u128` returns the parsed 128-bit value.
#[verifier::external_body]
pub fn parse_uuid(s: &str) -> (r: Option<u128>)
    ensures
        r == uuid_parse_of(s@),
{
    match uuid::Uuid::parse_str(s) {
        Ok(u) => Some(u.as_u128()),
        Err(_) => None,
    }
}

/// Relies on `uuid::Uuid::from_u128` and the `Display` form of `uuid::Uuid`:
/// formatting yields the hyphenated form, a function of the value alone, and
/// `uuid::Uuid::parse_str` accepts that form and returns the same value.
#[verifier::external_body]
pub fn format_uuid(u: u128) -> (r: String)
    ensures
        r@ == uuid_str_of(u),
        uuid_parse_of(r@) == Some(u),
{
    uuid::Uuid::from_u128(u).to_string()
}

/// Relies on `uuid::Uuid::new_v4`: a fresh random identifier. Nothing can be
/// promised of a random value.
#[verifier::external_body]
pub fn new_uuid() -> (r: u128) {
    uuid::Uuid::new_v4().as_u128()
}

/// Relies on `chrono::Utc::now`: the current instant, as seconds since the
/// Unix epoch. Nothing can be promised of the clock's reading.
#[verifier::external_body]
fn now_seconds() -> (r: i64) {
    chrono::Utc::now().timestamp()
}

/// The current instant as seconds since the Unix epoch, clamped to zero for
/// clock readings before the epoch.
pub fn current_unix_time() -> u64 {
    let t = now_seconds();
    if t < 0 {
        0
    } else {
        t as u64
    }
}

/// A stored user account. The `password` field holds the salted,
/// algorithm-tagged credential hash, never a plaintext.
#[derive(Debug, Clone)]
pub struct User {
    /// The unique account identifier (a UUID's 128-bit value).
    pub id: u128,
    /// The account's public identifier.
    pub email: String,
    /// When the account was created (seconds since the Unix epoch).
    pub created_at: u64,
    /// When the account was last updated (seconds since the Unix epoch).
    pub updated_at: u64,
    /// The stored credential hash.
    pub password: String,
    /// The display name.
    pub name: String,
}

impl User {
    /// Build a fresh account record: a new random identifier, the current
    /// instant for both timestamps, and the given details.
    pub fn from_details(name: String, email: String, password: String) -> (u: User)
        ensures
            u.name == name,
            u.email == email,
            u.password == password,
            u.created_at == u.updated_at,
    {
        let now = current_unix_time();
        User { email, password, id: new_uuid(), name, created_at: now, updated_at: now }
    }
}

/// The minimal authenticated-user record: what a successful credential check
/// or token decoding yields.
#[derive(Debug, Clone)]
pub struct SlimUser {
    /// The account's public identifier.
    pub email: String,
    /// The unique account identifier (a UUID's 128-bit value).
    pub id: u128,
    /// The display name.
    pub name: String,
}

/// The slim view of a stored account: the same identity without the
/// credential hash and timestamps.
pub open spec fn slim_of(user: User) -> SlimUser {
    SlimUser { name: user.name, email: user.email, id: user.id }
}

impl From<User> for SlimUser {
    fn from(user: User) -> (r: SlimUser) {
        SlimUser { name: user.name, email: user.email, id: user.id }
    }
}

impl vstd::std_specs::convert::FromSpecImpl<User> for SlimUser {
    open spec fn obeys_from_spec() -> bool {
        true
    }

    open spec fn from_spec(user: User) -> SlimUser {
        slim_of(user)
    }
}

/// A todo record owned by one user.
#[derive(Debug, Clone)]
pub struct Todo {
    /// The unique record identifier (a UUID's 128-bit value).
    pub id: u128,
    /// The text of the todo.
    pub title: String,
    /// Whether the todo has been completed.
    pub completed: bool,
    /// When the record was created (seconds since the Unix epoch).
    pub created_at: u64,
    /// When the record was last updated (seconds since the Unix epoch).
    pub updated_at: u64,
    /// The identifier of the owning user.
    pub user_id: u128,
}

impl Todo {
    /// Build a fresh, uncompleted todo for the given owner: a new random
    /// identifier and the current instant for both timestamps.
    pub fn from_title(title: String, user_id: u128) -> (t: Todo)
        ensures
            t.title == title,
            t.user_id == user_id,
            !t.completed,
            t.created_at == t.updated_at,
    {
        let now = current_unix_time();
        Todo { id: new_uuid(), completed: false, title, user_id, created_at: now, updated_at: now }
    }
}

} // verus!

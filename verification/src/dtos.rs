//! The request and response payloads exchanged with the outer API layer.

use vstd::prelude::*;

verus! {

/// The login request: the account's public identifier and the plaintext
/// credential.
#[derive(Debug, Clone, PartialEq)]
pub struct LoginDTO {
    /// The account's public identifier.
    pub email: String,
    /// The plaintext credential; never persisted.
    pub password: String,
}

/// The reply to a successful login or signup: the account identity and the
/// issued bearer token.
#[derive(Debug, Clone, PartialEq)]
pub struct LoginResponseDTO {
    /// The account identifier, in textual UUID form.
    pub id: String,
    /// The account's public identifier.
    pub email: String,
    /// The issued bearer token.
    pub token: String,
}

/// The reply to a successful signup.
pub type SignupResponseDTO = LoginResponseDTO;

/// The signup request: the account details and the plaintext credential.
#[derive(Debug, Clone, PartialEq)]
pub struct SignupRequestDTO {
    /// The account's public identifier.
    pub email: String,
    /// The plaintext credential; never persisted.
    pub password: String,
    /// The display name.
    pub name: String,
}

/// The request to create a new todo.
#[derive(Debug, Clone, PartialEq)]
pub struct CreateTodoDTO {
    /// The text of the new todo.
    pub title: String,
}

/// The request to change a todo's completion state.
#[derive(Debug, Clone, PartialEq)]
pub struct CompleteTodoDTO {
    /// The identifier of the todo, in textual UUID form.
    pub id: String,
}

} // verus!

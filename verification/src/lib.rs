//! A request-authentication and resource-authorization layer for a per-user
//! todo collection behind an HTTP-style API.
//!
//! The verified core covers credential hashing and verification, signed-token
//! issuance and validation with a pluggable claims shape, the request
//! interception stage that authenticates every protected call, the per-resource
//! ownership check, and the shared error taxonomy. Transport concerns (HTTP
//! routing, database connections, terminal rendering) live outside the library
//! and exchange plain values with it.

pub mod account;
pub mod claims;
pub mod config;
pub mod dtos;
pub mod errors;
pub mod hashing;
pub mod interceptor;
pub mod models;
pub mod store;
pub mod ui;
pub mod utils;

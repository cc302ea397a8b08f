//! Credential verification and session tokens for a small content service:
//! password hashing, parsing of `Authorization` headers, the decisions that
//! turn a credential and a store lookup into an authenticated user, and the
//! issuing of opaque bearer tokens.

pub mod auth;
pub mod credential;
pub mod encoding;
pub mod ident;
pub mod password;
pub mod token;
pub mod user;

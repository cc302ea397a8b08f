//! The decisions of authentication.
//!
//! Looking a user up is the caller's work. The functions here say what to
//! look up, and take what the store answered as a `UserLookup`; they hold no
//! state between calls.

use crate::credential::{BasicCredential, BearerCredential};
use crate::password::{password_matches, verify};
use crate::user::User;
use vstd::prelude::*;

verus! {

/// Why an authentication failed. The kinds are told apart inside the service
/// only; a client is shown the same thing for each of them.
#[derive(Debug, Clone, Copy, PartialEq, Eq, Structural)]
pub enum AuthFailure {
    MissingCredential,
    UserNotFound,
    WrongPassword,
    TokenNotFound,
    StorageError,
}

/// What the store answered to a lookup of a user.
#[derive(Debug, Clone)]
pub enum UserLookup {
    Found(User),
    NotFound,
    Failed,
}

/// What a client gets to see of a failure.
#[derive(Debug, Clone, Copy, PartialEq, Eq, Structural)]
pub enum Presentation {
    /// The request is not authenticated; nothing says why.
    Unauthorized,
    /// The service itself failed.
    ServerFailure,
}

/// Every authentication failure is shown as `Unauthorized`.
pub open spec fn presented(failure: AuthFailure) -> Presentation {
    Presentation::Unauthorized
}

impl AuthFailure {
    /// What a client gets to see of this failure.
    pub fn presentation(&self) -> (shown: Presentation)
        ensures
            shown == presented(*self),
    {
        Presentation::Unauthorized
    }
}

/// The outcome of a login with a basic credential, given what the store
/// answered for the credential's username.
pub open spec fn basic_outcome(credentials: BasicCredential, lookup: UserLookup) -> Result<
    User,
    AuthFailure,
> {
    match credentials.password {
        None => Err(AuthFailure::MissingCredential),
        Some(password) => match lookup {
            UserLookup::Failed => Err(AuthFailure::StorageError),
            UserLookup::NotFound => Err(AuthFailure::UserNotFound),
            UserLookup::Found(user) => if password_matches(password@, user.password@) {
                Ok(user)
            } else {
                Err(AuthFailure::WrongPassword)
            },
        },
    }
}

/// The outcome of a request with a bearer credential, given what the store
/// answered for the credential's token.
pub open spec fn bearer_outcome(lookup: UserLookup) -> Result<User, AuthFailure> {
    match lookup {
        UserLookup::Failed => Err(AuthFailure::StorageError),
        UserLookup::NotFound => Err(AuthFailure::TokenNotFound),
        UserLookup::Found(user) => Ok(user),
    }
}

/// The username that the store is to be asked for. A credential without a
/// password fails before any lookup.
pub fn username_to_find(credentials: &BasicCredential) -> (key: Result<&str, AuthFailure>)
    ensures
        match key {
            Ok(username) => credentials.password is Some && username@ == credentials.username@,
            Err(failure) => credentials.password is None && failure
                == AuthFailure::MissingCredential,
        },
{
    match &credentials.password {
        Some(_) => Ok(credentials.username.as_str()),
        None => Err(AuthFailure::MissingCredential),
    }
}

/// The last step of a login: a user whose password matched is let in.
pub fn let_in(user: User, matched: bool) -> (outcome: Result<User, AuthFailure>)
    ensures
        outcome == if matched {
            Ok::<User, AuthFailure>(user)
        } else {
            Err(AuthFailure::WrongPassword)
        },
{
    if matched {
        Ok(user)
    } else {
        Err(AuthFailure::WrongPassword)
    }
}

/// Decides a login with a basic credential from what the store answered for
/// its username.
pub fn validate_basic_auth(credentials: &BasicCredential, lookup: UserLookup) -> (outcome: Result<
    User,
    AuthFailure,
>)
    ensures
        outcome == basic_outcome(*credentials, lookup),
{
    let password = match &credentials.password {
        Some(password) => password,
        None => {
            return Err(AuthFailure::MissingCredential);
        },
    };
    match lookup {
        UserLookup::Found(user) => {
            let matched = verify(password.as_str(), user.password.as_str());
            let_in(user, matched)
        },
        UserLookup::NotFound => Err(AuthFailure::UserNotFound),
        UserLookup::Failed => Err(AuthFailure::StorageError),
    }
}

/// The token that the store is to be asked for.
pub fn token_to_find(credentials: &BearerCredential) -> (key: &str)
    ensures
        key@ == credentials.token@,
{
    credentials.token.as_str()
}

/// Decides a request with a bearer credential from what the store answered
/// for its token. A token that the store knows never expires.
pub fn validate_bearer_auth(lookup: UserLookup) -> (outcome: Result<User, AuthFailure>)
    ensures
        outcome == bearer_outcome(lookup),
{
    match lookup {
        UserLookup::Found(user) => Ok(user),
        UserLookup::NotFound => Err(AuthFailure::TokenNotFound),
        UserLookup::Failed => Err(AuthFailure::StorageError),
    }
}

/// Any two authentication failures are shown to a client as the same thing.
pub proof fn lemma_failures_look_alike(a: AuthFailure, b: AuthFailure)
    ensures
        presented(a) == presented(b),
{
}

/// A login fails in the same way, as far as a client can see, whether the
/// username is unknown or the password is wrong.
pub proof fn lemma_enumeration_resistance(credentials: BasicCredential, user: User)
    requires
        credentials.password matches Some(password) ==> !password_matches(
            password@,
            user.password@,
        ),
    ensures
        basic_outcome(credentials, UserLookup::NotFound) is Err,
        basic_outcome(credentials, UserLookup::Found(user)) is Err,
        presented(basic_outcome(credentials, UserLookup::NotFound)->Err_0) == presented(
            basic_outcome(credentials, UserLookup::Found(user))->Err_0,
        ),
{
}

} // verus!

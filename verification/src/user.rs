//! User records and the requests that create or change them.

use crate::ident::fresh_uuid;
use crate::password::{hash, password_matches, HashingError, HASH_LEN};
use uuid::Uuid;
use vstd::prelude::*;

verus! {

/// What a client sends to register a user.
#[derive(Debug, Clone)]
pub struct UserPostRequest {
    pub name: String,
    pub username: String,
    pub password: String,
}

/// What a client sends to rename a user.
#[derive(Debug, Clone)]
pub struct UserPutRequest {
    pub name: String,
    pub username: String,
}

/// A stored user. `password` holds the password hash, never the plaintext.
#[derive(Debug, Clone)]
pub struct User {
    pub id: Uuid,
    pub name: String,
    pub username: String,
    pub password: String,
}

/// A user as shown to clients: the record without its password hash.
#[derive(Debug, Clone)]
pub struct UserPublic {
    pub id: Uuid,
    pub name: String,
    pub username: String,
}

impl User {
    /// The record of a newly registered user: the request's names under the
    /// given identity, with the password's hash in place of the password.
    pub fn registered(id: Uuid, request: UserPostRequest, password_hash: String) -> (record: User)
        ensures
            record == (User {
                id,
                name: request.name,
                username: request.username,
                password: password_hash,
            }),
    {
        User { id, name: request.name, username: request.username, password: password_hash }
    }

    /// The outcome of a registration once its password went through hashing:
    /// the record with the hash where there is one, the failure otherwise.
    pub fn from_hashing(
        id: Uuid,
        request: UserPostRequest,
        hashed: Result<String, HashingError>,
    ) -> (created: Result<User, HashingError>)
        ensures
            match hashed {
                Ok(password_hash) => created == Ok::<User, HashingError>(
                    User {
                        id,
                        name: request.name,
                        username: request.username,
                        password: password_hash,
                    },
                ),
                Err(failure) => created == Err::<User, HashingError>(failure),
            },
    {
        match hashed {
            Ok(password_hash) => Ok(User::registered(id, request, password_hash)),
            Err(failure) => Err(failure),
        }
    }

    /// Makes the record to store for a registration: a fresh identity, and
    /// the password hashed. The plaintext goes no further than this. It fails
    /// only where hashing fails, with `InternalFailure`.
    pub fn create(user: UserPostRequest) -> (created: Result<User, HashingError>)
        ensures
            match created {
                Ok(record) => {
                    &&& record.name == user.name
                    &&& record.username == user.username
                    &&& record.password@.len() == HASH_LEN
                    &&& password_matches(user.password@, record.password@)
                },
                Err(failure) => failure == HashingError::InternalFailure,
            },
    {
        let user_id = fresh_uuid();
        let hashed = hash(user.password.as_str());
        User::from_hashing(user_id, user, hashed)
    }
}

impl From<User> for UserPublic {
    fn from(user: User) -> (shown: UserPublic) {
        UserPublic { id: user.id, name: user.name, username: user.username }
    }
}

impl vstd::std_specs::convert::FromSpecImpl<User> for UserPublic {
    open spec fn obeys_from_spec() -> bool {
        true
    }

    open spec fn from_spec(user: User) -> UserPublic {
        UserPublic { id: user.id, name: user.name, username: user.username }
    }
}

} // verus!

//! Users, and the request that registers one.
use vstd::prelude::*;
use crate::clock::Timestamp;
use crate::identity::Identifier;

verus! {

/// A registered user. `password` holds a digest, never a plaintext; the
/// handlers write nothing else there.
#[derive(Clone, Debug, PartialEq, Eq)]
pub struct User {
    pub user_id: Identifier,
    pub username: String,
    pub email: String,
    pub password: String,
    pub user_type: String,
    pub created_at: Timestamp,
    pub updated_at: Timestamp,
}

impl User {
    /// A user with a new identifier, created now.
    pub fn new(username: String, email: String, password: String, user_type: String) -> (user:
        User)
        ensures
            user == (User {
                user_id: user.user_id,
                username,
                email,
                password,
                user_type,
                created_at: user.created_at,
                updated_at: user.created_at,
            }),
    {
        let now = Timestamp::now();
        User {
            user_id: Identifier::fresh(),
            username,
            email,
            password,
            user_type,
            created_at: now,
            updated_at: now,
        }
    }
}

/// What a client sends to register: a user without identifier or timestamps.
#[derive(Clone, Debug, PartialEq, Eq)]
pub struct NewUser {
    pub username: String,
    pub email: String,
    pub password: String,
    pub user_type: String,
}

impl NewUser {
    pub fn new(username: String, email: String, password: String, user_type: String) -> (request:
        NewUser)
        ensures
            request == (NewUser { username, email, password, user_type }),
    {
        NewUser { username, email, password, user_type }
    }

    /// The user that this request describes, with a new identifier, created now.
    pub fn to_user(&self) -> (user: User)
        ensures
            user == (User {
                user_id: user.user_id,
                username: self.username,
                email: self.email,
                password: self.password,
                user_type: self.user_type,
                created_at: user.created_at,
                updated_at: user.created_at,
            }),
    {
        User::new(
            self.username.clone(),
            self.email.clone(),
            self.password.clone(),
            self.user_type.clone(),
        )
    }
}

} // verus!

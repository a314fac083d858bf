//! Users: register, update, delete, find by name, list.
use vstd::prelude::*;
use crate::clock::Timestamp;
use crate::credential::{accepts, hash};
use crate::identity::Identifier;
use crate::models::profile::Profile;
use crate::models::user::{NewUser, User};
use crate::models::Entity;
use crate::plan::{Notice, Plan, Sequel, Status};
use crate::recipe::{
    answer, answering, create, creating, delete, deleting, fetch, fetching, key, keyed, list,
    listing, update, updating,
};
use crate::store::{Changes, Collection, Filter, KeyField, TextField};

verus! {

pub const USER_EXISTS: &'static str = "Error: User already exists";

pub const USER_REGISTERED: &'static str = "User registered successfully";

pub const USER_NOT_REGISTERED: &'static str = "Failed to register user";

/// The message where the user was stored and the profile was not: the two
/// collections disagree, and somebody has to mend it.
pub const PROFILE_ORPHANED: &'static str = "User registered, but the profile could not be created";

pub const USER_UPDATED: &'static str = "User updated successfully";

pub const USER_NOT_UPDATED: &'static str = "Failed to update user";

pub const USER_MISSING: &'static str = "Error 10001 : User does not exist";

pub const USER_DELETED: &'static str = "User deleted successfully";

pub const USER_NOT_DELETED: &'static str = "Failed to delete user";

pub const USER_NOT_FOUND: &'static str = "User not found";

pub const USER_FIND_FAILED: &'static str = "Failed to find user";

pub const USERS_NOT_LISTED: &'static str = "Failed to list users";

/// The user that a registration stores: the request's fields, the digest in
/// place of the password.
pub open spec fn registered_user(
    request: NewUser,
    digest: String,
    user_id: Identifier,
    now: Timestamp,
) -> User {
    User {
        user_id,
        username: request.username,
        email: request.email,
        password: digest,
        user_type: request.user_type,
        created_at: now,
        updated_at: now,
    }
}

/// The profile that a registration stores after the user: it names the
/// user and repeats the user's name and email.
pub open spec fn registered_profile(
    request: NewUser,
    user_id: Identifier,
    profile_id: Identifier,
    now: Timestamp,
) -> Profile {
    Profile {
        profile_id,
        user_id,
        username: request.username,
        email: request.email,
        bio: None,
        profile_type: None,
        business: None,
        interests: None,
        created_at: now,
        updated_at: now,
    }
}

/// The plan of a registration, for the digest, the identifiers and the time
/// that were drawn for it: unless the name is taken, store the user, then
/// the profile. Without a digest nothing is stored.
pub open spec fn registration(
    request: NewUser,
    digest: Option<String>,
    user_id: Identifier,
    profile_id: Identifier,
    now: Timestamp,
) -> Plan {
    match digest {
        Some(digest) => creating(
            Collection::Users,
            Filter::Text { field: TextField::Username, value: request.username },
            Entity::User(registered_user(request, digest, user_id, now)),
            Some(
                Sequel {
                    collection: Collection::Profiles,
                    entity: Entity::Profile(registered_profile(request, user_id, profile_id, now)),
                    orphaned: PROFILE_ORPHANED,
                },
            ),
            USER_EXISTS,
            USER_REGISTERED,
            USER_NOT_REGISTERED,
        ),
        None => answering(Status::StoreFailure, USER_NOT_REGISTERED),
    }
}

/// The plan of a user's update, for the digest that was made of the new
/// password. Without a digest nothing is stored.
pub open spec fn user_update(user: User, digest: Option<String>) -> Plan {
    match digest {
        Some(digest) => updating(
            Collection::Users,
            keyed(Collection::Users, KeyField::UserId, user.user_id),
            Changes::Fields(Entity::User(User { password: digest, ..user })),
            USER_UPDATED,
            USER_MISSING,
            USER_NOT_UPDATED,
        ),
        None => answering(Status::StoreFailure, USER_NOT_UPDATED),
    }
}

/// Plans a registration with what was drawn for it.
pub fn register_user_with(
    new_user: NewUser,
    digest: Option<String>,
    user_id: Identifier,
    profile_id: Identifier,
    now: Timestamp,
) -> (plan: Plan)
    ensures
        plan == registration(new_user, digest, user_id, profile_id, now),
{
    match digest {
        Some(digest) => {
            let name = Filter::Text {
                field: TextField::Username,
                value: new_user.username.clone(),
            };
            let profile = Profile {
                profile_id,
                user_id,
                username: new_user.username.clone(),
                email: new_user.email.clone(),
                bio: None,
                profile_type: None,
                business: None,
                interests: None,
                created_at: now,
                updated_at: now,
            };
            let user = User {
                user_id,
                username: new_user.username,
                email: new_user.email,
                password: digest,
                user_type: new_user.user_type,
                created_at: now,
                updated_at: now,
            };
            create(
                Collection::Users,
                name,
                Entity::User(user),
                Some(
                    Sequel {
                        collection: Collection::Profiles,
                        entity: Entity::Profile(profile),
                        orphaned: PROFILE_ORPHANED,
                    },
                ),
                USER_EXISTS,
                USER_REGISTERED,
                USER_NOT_REGISTERED,
            )
        },
        None => answer(Status::StoreFailure, USER_NOT_REGISTERED),
    }
}

/// Registers a user: makes a digest of the password, draws the identifiers
/// of the user and of the profile, reads the clock, and plans with them.
/// Whatever was drawn, a digest in the plan is a digest of the password sent.
pub fn register_user(new_user: NewUser) -> (plan: Plan)
    ensures
        exists|digest: Option<String>, user_id: Identifier, profile_id: Identifier, now: Timestamp|
            ({
                &&& digest matches Some(made) ==> accepts(new_user.password@, made@)
                &&& plan == #[trigger] registration(new_user, digest, user_id, profile_id, now)
            }),
{
    let digest = hash(new_user.password.as_str());
    let user_id = Identifier::fresh();
    let profile_id = Identifier::fresh();
    let now = Timestamp::now();
    register_user_with(new_user, digest, user_id, profile_id, now)
}

/// Plans a user's update with the digest that was made for it.
pub fn update_user_with(user: User, digest: Option<String>) -> (plan: Plan)
    ensures
        plan == user_update(user, digest),
{
    match digest {
        Some(digest) => {
            let filter = key(Collection::Users, KeyField::UserId, user.user_id);
            update(
                Collection::Users,
                filter,
                Changes::Fields(Entity::User(User { password: digest, ..user })),
                USER_UPDATED,
                USER_MISSING,
                USER_NOT_UPDATED,
            )
        },
        None => answer(Status::StoreFailure, USER_NOT_UPDATED),
    }
}

/// Updates a user's name, email, password and type. The password is sent as
/// plaintext and stored as a digest of it.
pub fn update_user(user: User) -> (plan: Plan)
    ensures
        exists|digest: Option<String>|
            ({
                &&& digest matches Some(made) ==> accepts(user.password@, made@)
                &&& plan == #[trigger] user_update(user, digest)
            }),
{
    let digest = hash(user.password.as_str());
    update_user_with(user, digest)
}

pub fn delete_user(user_id: Identifier) -> (plan: Plan)
    ensures
        plan == deleting(
            Collection::Users,
            keyed(Collection::Users, KeyField::UserId, user_id),
            Notice::Plain(USER_DELETED),
            USER_MISSING,
            USER_NOT_DELETED,
        ),
{
    delete(
        Collection::Users,
        key(Collection::Users, KeyField::UserId, user_id),
        Notice::Plain(USER_DELETED),
        USER_MISSING,
        USER_NOT_DELETED,
    )
}

/// Finds a user by name.
pub fn find_user(username: String) -> (plan: Plan)
    ensures
        plan == fetching(
            Collection::Users,
            Filter::Text { field: TextField::Username, value: username },
            USER_NOT_FOUND,
            USER_FIND_FAILED,
        ),
{
    fetch(
        Collection::Users,
        Filter::Text { field: TextField::Username, value: username },
        USER_NOT_FOUND,
        USER_FIND_FAILED,
    )
}

pub fn find_all_users() -> (plan: Plan)
    ensures
        plan == listing(Collection::Users, Filter::Everything, 0, None, USERS_NOT_LISTED),
{
    list(Collection::Users, Filter::Everything, 0, None, USERS_NOT_LISTED)
}

} // verus!

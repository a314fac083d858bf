//! Profiles: register, update, delete, find by identifier or by name, list.
use vstd::prelude::*;
use crate::identity::{decoded, Identifier};
use crate::models::profile::Profile;
use crate::models::Entity;
use crate::plan::{Notice, Plan, Status};
use crate::recipe::{
    answer, answering, create, creating, delete, deleting, fetch, fetching, key, keyed, list,
    listing, update, updating,
};
use crate::store::{Changes, Collection, Filter, KeyField, TextField};

verus! {

pub const PROFILE_EXISTS: &'static str = "Error 10001 : Profile already exists";

pub const PROFILE_REGISTERED: &'static str = "profile registered successfully";

pub const PROFILE_NOT_REGISTERED: &'static str = "Failed to register profile";

pub const PROFILE_UPDATED: &'static str = "profile updated successfully";

pub const PROFILE_NOT_UPDATED: &'static str = "Failed to update profile";

pub const PROFILE_MISSING: &'static str = "Error 10001 : Profile does not exist";

pub const PROFILE_DELETED: &'static str = "Profile deleted successfully";

pub const PROFILE_NOT_DELETED: &'static str = "Failed to delete profile";

/// Clients know this wording from the business routes, where it came from.
pub const PROFILE_ID_MALFORMED: &'static str = "Invalid business ID format";

pub const PROFILE_NOT_FOUND: &'static str = "Profile not found";

pub const PROFILE_FIND_FAILED: &'static str = "Failed to find profile";

pub const PROFILES_NOT_LISTED: &'static str = "Failed to list profiles";

/// Registers a profile, unless one with the same email is registered.
pub fn register_profile(profile: Profile) -> (plan: Plan)
    ensures
        plan == creating(
            Collection::Profiles,
            Filter::Text { field: TextField::Email, value: profile.email },
            Entity::Profile(profile),
            None,
            PROFILE_EXISTS,
            PROFILE_REGISTERED,
            PROFILE_NOT_REGISTERED,
        ),
{
    let email = Filter::Text { field: TextField::Email, value: profile.email.clone() };
    create(
        Collection::Profiles,
        email,
        Entity::Profile(profile),
        None,
        PROFILE_EXISTS,
        PROFILE_REGISTERED,
        PROFILE_NOT_REGISTERED,
    )
}

/// Updates the profile with this user name: sets its biography.
pub fn update_profile(profile: Profile) -> (plan: Plan)
    ensures
        plan == updating(
            Collection::Profiles,
            Filter::Text { field: TextField::Username, value: profile.username },
            Changes::Fields(Entity::Profile(profile)),
            PROFILE_UPDATED,
            PROFILE_MISSING,
            PROFILE_NOT_UPDATED,
        ),
{
    let name = Filter::Text { field: TextField::Username, value: profile.username.clone() };
    update(
        Collection::Profiles,
        name,
        Changes::Fields(Entity::Profile(profile)),
        PROFILE_UPDATED,
        PROFILE_MISSING,
        PROFILE_NOT_UPDATED,
    )
}

/// Deletes the profile with this user name.
pub fn delete_profile(username: String) -> (plan: Plan)
    ensures
        plan == deleting(
            Collection::Profiles,
            Filter::Text { field: TextField::Username, value: username },
            Notice::Plain(PROFILE_DELETED),
            PROFILE_MISSING,
            PROFILE_NOT_DELETED,
        ),
{
    delete(
        Collection::Profiles,
        Filter::Text { field: TextField::Username, value: username },
        Notice::Plain(PROFILE_DELETED),
        PROFILE_MISSING,
        PROFILE_NOT_DELETED,
    )
}

/// Finds a profile by its identifier, given as text.
pub fn find_profile(profile_id: &str) -> (plan: Plan)
    ensures
        plan == (match decoded(profile_id@) {
            Ok(id) => fetching(
                Collection::Profiles,
                keyed(Collection::Profiles, KeyField::ProfileId, id),
                PROFILE_NOT_FOUND,
                PROFILE_FIND_FAILED,
            ),
            Err(_) => answering(Status::MalformedIdentifier, PROFILE_ID_MALFORMED),
        }),
{
    match Identifier::decode(profile_id) {
        Ok(id) => fetch(
            Collection::Profiles,
            key(Collection::Profiles, KeyField::ProfileId, id),
            PROFILE_NOT_FOUND,
            PROFILE_FIND_FAILED,
        ),
        Err(_) => answer(Status::MalformedIdentifier, PROFILE_ID_MALFORMED),
    }
}

pub fn find_profile_by_username(username: String) -> (plan: Plan)
    ensures
        plan == fetching(
            Collection::Profiles,
            Filter::Text { field: TextField::Username, value: username },
            PROFILE_NOT_FOUND,
            PROFILE_FIND_FAILED,
        ),
{
    fetch(
        Collection::Profiles,
        Filter::Text { field: TextField::Username, value: username },
        PROFILE_NOT_FOUND,
        PROFILE_FIND_FAILED,
    )
}

pub fn find_all_profiles() -> (plan: Plan)
    ensures
        plan == listing(Collection::Profiles, Filter::Everything, 0, None, PROFILES_NOT_LISTED),
{
    list(Collection::Profiles, Filter::Everything, 0, None, PROFILES_NOT_LISTED)
}

} // verus!

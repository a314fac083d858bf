//! Profiles: one for each user, made when the user registers.
use vstd::prelude::*;
use crate::clock::Timestamp;
use crate::identity::Identifier;

verus! {

#[derive(Clone, Debug, PartialEq, Eq)]
pub struct Profile {
    pub profile_id: Identifier,
    pub user_id: Identifier,
    pub username: String,
    pub email: String,
    pub bio: Option<String>,
    pub profile_type: Option<String>,
    pub business: Option<String>,
    pub interests: Option<Vec<String>>,
    pub created_at: Timestamp,
    pub updated_at: Timestamp,
}

impl Profile {
    /// A bare profile for a user, with a new identifier, created now.
    pub fn new(user_id: Identifier, email: String, username: String) -> (profile: Profile)
        ensures
            profile == (Profile {
                profile_id: profile.profile_id,
                user_id,
                username,
                email,
                bio: None,
                profile_type: None,
                business: None,
                interests: None,
                created_at: profile.created_at,
                updated_at: profile.created_at,
            }),
    {
        let now = Timestamp::now();
        Profile {
            profile_id: Identifier::fresh(),
            user_id,
            username,
            email,
            bio: None,
            profile_type: None,
            business: None,
            interests: None,
            created_at: now,
            updated_at: now,
        }
    }

    /// A filled-in profile for a user, with a new identifier, created now.
    pub fn new_with_details(
        user_id: Identifier,
        email: String,
        username: String,
        bio: String,
        profile_type: String,
        business: String,
        interests: Vec<String>,
    ) -> (profile: Profile)
        ensures
            profile == (Profile {
                profile_id: profile.profile_id,
                user_id,
                username,
                email,
                bio: Some(bio),
                profile_type: Some(profile_type),
                business: Some(business),
                interests: Some(interests),
                created_at: profile.created_at,
                updated_at: profile.created_at,
            }),
    {
        let now = Timestamp::now();
        Profile {
            profile_id: Identifier::fresh(),
            user_id,
            username,
            email,
            bio: Some(bio),
            profile_type: Some(profile_type),
            business: Some(business),
            interests: Some(interests),
            created_at: now,
            updated_at: now,
        }
    }
}

} // verus!

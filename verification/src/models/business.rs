//! Businesses, each owned by a list of users.
use vstd::prelude::*;
use crate::clock::Timestamp;
use crate::identity::Identifier;

verus! {

#[derive(Clone, Debug, PartialEq, Eq)]
pub struct Business {
    pub business_id: Identifier,
    /// The users who own the business.
    pub user_ids: Option<Vec<Identifier>>,
    pub name: String,
    pub description: String,
    pub logo: Option<String>,
    pub pictures: Option<Vec<String>>,
    pub founder: String,
    pub industry: String,
    pub phone: String,
    pub address: Option<String>,
    pub city: Option<String>,
    pub region: Option<String>,
    pub country: String,
    pub website: Option<String>,
    pub contact_email: Option<String>,
    pub created_at: Timestamp,
    pub updated_at: Timestamp,
}

impl Business {
    /// A business with a new identifier, created now, with the optional
    /// details left open.
    pub fn new(
        user_ids: Option<Vec<Identifier>>,
        name: String,
        description: String,
        founder: String,
        industry: String,
        phone: String,
        country: String,
    ) -> (business: Business)
        ensures
            business == (Business {
                business_id: business.business_id,
                user_ids,
                name,
                description,
                logo: None,
                pictures: None,
                founder,
                industry,
                phone,
                address: None,
                city: None,
                region: None,
                country,
                website: None,
                contact_email: None,
                created_at: business.created_at,
                updated_at: business.created_at,
            }),
    {
        let now = Timestamp::now();
        Business {
            business_id: Identifier::fresh(),
            user_ids,
            name,
            description,
            logo: None,
            pictures: None,
            founder,
            industry,
            phone,
            address: None,
            city: None,
            region: None,
            country,
            website: None,
            contact_email: None,
            created_at: now,
            updated_at: now,
        }
    }

    /// `user` is one of the owners.
    pub open spec fn owned_by(self, user: Identifier) -> bool {
        match self.user_ids {
            Some(owners) => owners@.contains(user),
            None => false,
        }
    }

    pub fn is_owned_by(&self, user: Identifier) -> (answer: bool)
        ensures
            answer == self.owned_by(user),
    {
        match &self.user_ids {
            Some(owners) => {
                let mut at: usize = 0;
                while at < owners.len()
                    invariant
                        at <= owners.len(),
                        self.user_ids == Some(*owners),
                        forall|i: int| 0 <= i < at ==> owners@[i] != user,
                    decreases owners.len() - at,
                {
                    if owners[at] == user {
                        assert(owners@[at as int] == user);
                        return true;
                    }
                    at = at + 1;
                }
                false
            },
            None => false,
        }
    }
}

} // verus!

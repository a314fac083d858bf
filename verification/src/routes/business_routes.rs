//! Businesses: register, find, update, delete, list by page, list by owner.
use vstd::prelude::*;
use crate::identity::{decoded, Identifier};
use crate::models::business::Business;
use crate::models::Entity;
use crate::plan::{Check, Guard, Notice, Plan, Status};
use crate::recipe::{
    answer, answering, create, creating, delete, deleting, fetch, fetching, guard, guarded, key,
    keyed, list, listing, update_if_present, updating_if_present,
};
use crate::store::{Changes, Collection, Filter, KeyField, TextField};

verus! {

pub const BUSINESS_EXISTS: &'static str = "Error 10001 : Business already exists";

pub const BUSINESS_REGISTERED: &'static str = "business registered successfully";

pub const BUSINESS_NOT_REGISTERED: &'static str = "Failed to register business";

pub const BUSINESS_ID_MALFORMED: &'static str = "Invalid business ID format";

pub const BUSINESS_NOT_FOUND: &'static str = "Business not found";

pub const BUSINESS_FIND_FAILED: &'static str = "Failed to find business";

pub const BUSINESS_MISSING: &'static str = "Error 10001 : Business does not exist";

pub const BUSINESS_UPDATED: &'static str = "business updated successfully";

pub const BUSINESS_NOT_UPDATED: &'static str = "Failed to update business";

pub const BUSINESS_DELETED: &'static str = "business deleted successfully";

pub const BUSINESS_NOT_DELETED: &'static str = "Failed to delete business";

pub const BUSINESSES_NOT_LISTED: &'static str = "Failed to list businesses";

pub const USER_ID_MALFORMED: &'static str = "Invalid user ID format";

pub const OWNER_MISSING: &'static str = "Error 10001 : User does not exist";

/// The page that is shown where the request names none.
pub const DEFAULT_PAGE: u32 = 1;

/// The size of a page where the request names none.
pub const DEFAULT_LIMIT: u32 = 20;

/// Which page of a listing a request asks for. Pages are counted from one.
#[derive(Clone, Copy, Debug, PartialEq, Eq, Structural)]
pub struct PaginationParams {
    pub page: Option<u32>,
    pub limit: Option<u32>,
}

impl PaginationParams {
    /// The page asked for: the first where none is named, and the first
    /// where page zero is named.
    pub open spec fn page_number(self) -> nat {
        match self.page {
            Some(page) => if page == 0 {
                1
            } else {
                page as nat
            },
            None => DEFAULT_PAGE as nat,
        }
    }

    /// The number of items on a page.
    pub open spec fn page_size(self) -> nat {
        match self.limit {
            Some(limit) => limit as nat,
            None => DEFAULT_LIMIT as nat,
        }
    }

    /// The number of items on the pages before the one asked for.
    pub open spec fn offset(self) -> nat {
        ((self.page_number() - 1) * self.page_size()) as nat
    }

    pub fn size(&self) -> (size: u64)
        ensures
            size == self.page_size(),
    {
        match self.limit {
            Some(limit) => limit as u64,
            None => DEFAULT_LIMIT as u64,
        }
    }

    /// The offset of the page: never negative, whatever page is named.
    pub fn skip(&self) -> (skip: u64)
        ensures
            skip == self.offset(),
    {
        let page: u64 = match self.page {
            Some(page) => if page == 0 {
                1
            } else {
                page as u64
            },
            None => DEFAULT_PAGE as u64,
        };
        let size = self.size();
        assert((page - 1) * size <= 0xffff_ffff * 0xffff_ffff) by (nonlinear_arith)
            requires
                1 <= page <= 0xffff_ffff,
                0 <= size <= 0xffff_ffff,
        ;
        (page - 1) * size
    }
}

/// Registers a business, unless one of the same name is registered.
pub fn register_business(business: Business) -> (plan: Plan)
    ensures
        plan == creating(
            Collection::Businesses,
            Filter::Text { field: TextField::Name, value: business.name },
            Entity::Business(business),
            None,
            BUSINESS_EXISTS,
            BUSINESS_REGISTERED,
            BUSINESS_NOT_REGISTERED,
        ),
{
    let key = Filter::Text { field: TextField::Name, value: business.name.clone() };
    create(
        Collection::Businesses,
        key,
        Entity::Business(business),
        None,
        BUSINESS_EXISTS,
        BUSINESS_REGISTERED,
        BUSINESS_NOT_REGISTERED,
    )
}

/// Finds a business by its identifier, given as text.
pub fn find_business(business_id: &str) -> (plan: Plan)
    ensures
        plan == (match decoded(business_id@) {
            Ok(id) => fetching(
                Collection::Businesses,
                keyed(Collection::Businesses, KeyField::BusinessId, id),
                BUSINESS_NOT_FOUND,
                BUSINESS_FIND_FAILED,
            ),
            Err(_) => answering(Status::MalformedIdentifier, BUSINESS_ID_MALFORMED),
        }),
{
    match Identifier::decode(business_id) {
        Ok(id) => fetch(
            Collection::Businesses,
            key(Collection::Businesses, KeyField::BusinessId, id),
            BUSINESS_NOT_FOUND,
            BUSINESS_FIND_FAILED,
        ),
        Err(_) => answer(Status::MalformedIdentifier, BUSINESS_ID_MALFORMED),
    }
}

/// Updates a business, if it is there: its identifier, its owners and
/// its time of creation stay, everything else is set as sent.
pub fn update_business(business: Business) -> (plan: Plan)
    ensures
        plan == updating_if_present(
            Collection::Businesses,
            keyed(Collection::Businesses, KeyField::BusinessId, business.business_id),
            Changes::Fields(Entity::Business(business)),
            BUSINESS_UPDATED,
            BUSINESS_MISSING,
            BUSINESS_NOT_UPDATED,
        ),
{
    let filter = key(Collection::Businesses, KeyField::BusinessId, business.business_id);
    update_if_present(
        Collection::Businesses,
        filter,
        Changes::Fields(Entity::Business(business)),
        BUSINESS_UPDATED,
        BUSINESS_MISSING,
        BUSINESS_NOT_UPDATED,
    )
}

/// Deletes a business by its identifier, given as text.
pub fn delete_business(business_id: &str) -> (plan: Plan)
    ensures
        plan == (match decoded(business_id@) {
            Ok(id) => deleting(
                Collection::Businesses,
                keyed(Collection::Businesses, KeyField::BusinessId, id),
                Notice::Plain(BUSINESS_DELETED),
                BUSINESS_MISSING,
                BUSINESS_NOT_DELETED,
            ),
            Err(_) => answering(Status::MalformedIdentifier, BUSINESS_ID_MALFORMED),
        }),
{
    match Identifier::decode(business_id) {
        Ok(id) => delete(
            Collection::Businesses,
            key(Collection::Businesses, KeyField::BusinessId, id),
            Notice::Plain(BUSINESS_DELETED),
            BUSINESS_MISSING,
            BUSINESS_NOT_DELETED,
        ),
        Err(_) => answer(Status::MalformedIdentifier, BUSINESS_ID_MALFORMED),
    }
}

/// Lists one page of all businesses.
pub fn find_all_businesses(query: PaginationParams) -> (plan: Plan)
    ensures
        plan == listing(
            Collection::Businesses,
            Filter::Everything,
            query.offset() as u64,
            Some(query.page_size() as u64),
            BUSINESSES_NOT_LISTED,
        ),
{
    list(
        Collection::Businesses,
        Filter::Everything,
        query.skip(),
        Some(query.size()),
        BUSINESSES_NOT_LISTED,
    )
}

/// Lists the businesses that a user owns, if the user is there. The user is
/// looked up in the form in which users hold identifiers, the owners in the
/// form in which businesses hold them.
pub fn find_businesses_by_user_id(user_id: &str) -> (plan: Plan)
    ensures
        plan == (match decoded(user_id@) {
            Ok(id) => guarded(
                Guard {
                    collection: Collection::Users,
                    filter: keyed(Collection::Users, KeyField::UserId, id),
                    check: Check::Present { missing: OWNER_MISSING },
                },
                listing(
                    Collection::Businesses,
                    Filter::Owner { id, encoding: Collection::Businesses.encoding() },
                    0,
                    None,
                    BUSINESSES_NOT_LISTED,
                ),
            ),
            Err(_) => answering(Status::MalformedIdentifier, USER_ID_MALFORMED),
        }),
{
    match Identifier::decode(user_id) {
        Ok(id) => guard(
            Guard {
                collection: Collection::Users,
                filter: key(Collection::Users, KeyField::UserId, id),
                check: Check::Present { missing: OWNER_MISSING },
            },
            list(
                Collection::Businesses,
                Filter::Owner { id, encoding: Collection::Businesses.stored_as() },
                0,
                None,
                BUSINESSES_NOT_LISTED,
            ),
        ),
        Err(_) => answer(Status::MalformedIdentifier, USER_ID_MALFORMED),
    }
}

} // verus!

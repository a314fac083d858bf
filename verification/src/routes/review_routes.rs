//! Reviews of products: add, update, delete, find, list. A review is known
//! by the key that the store gave it.
use vstd::prelude::*;
use crate::identity::{record_decoded, RecordId};
use crate::models::review::Review;
use crate::models::Entity;
use crate::plan::{Notice, Plan, Status};
use crate::recipe::{
    answer, answering, delete, deleting, fetch, fetching, insert, inserting, list, listing,
    update, updating,
};
use crate::store::{Changes, Collection, Filter};

verus! {

pub const REVIEW_INVALID: &'static str = "Invalid review: the rating is out of range";

pub const REVIEW_ADDED: &'static str = "review added successfully";

pub const REVIEW_NOT_ADDED: &'static str = "Failed to add review";

pub const REVIEW_UPDATED: &'static str = "review updated successfully";

pub const REVIEW_NOT_UPDATED: &'static str = "Failed to update review";

pub const REVIEW_ID_MALFORMED: &'static str = "Invalid review ID format";

pub const REVIEW_DELETED: &'static str = "review deleted successfully";

pub const REVIEW_NOT_DELETED: &'static str = "Failed to delete review";

pub const REVIEW_NOT_FOUND: &'static str = "review not found";

pub const REVIEW_FIND_FAILED: &'static str = "Failed to find review";

pub const REVIEWS_NOT_LISTED: &'static str = "Failed to list reviews";

/// Adds a review. The store gives it its key, so a key in the request is dropped.
pub fn add_review(review: Review) -> (plan: Plan)
    ensures
        plan == (if review.well_formed() {
            inserting(
                Collection::Reviews,
                Entity::Review(Review { id: None, ..review }),
                REVIEW_ADDED,
                REVIEW_NOT_ADDED,
            )
        } else {
            answering(Status::Invalid, REVIEW_INVALID)
        }),
{
    if review.is_well_formed() {
        insert(
            Collection::Reviews,
            Entity::Review(Review { id: None, ..review }),
            REVIEW_ADDED,
            REVIEW_NOT_ADDED,
        )
    } else {
        answer(Status::Invalid, REVIEW_INVALID)
    }
}

/// Updates the review kept under the key that the request names. A request
/// that names no key is about no review.
pub fn update_review(review: Review) -> (plan: Plan)
    ensures
        plan == (if !review.well_formed() {
            answering(Status::Invalid, REVIEW_INVALID)
        } else {
            match review.id {
                Some(id) => updating(
                    Collection::Reviews,
                    Filter::Record { id },
                    Changes::Fields(Entity::Review(review)),
                    REVIEW_UPDATED,
                    REVIEW_NOT_FOUND,
                    REVIEW_NOT_UPDATED,
                ),
                None => answering(Status::NotFound, REVIEW_NOT_FOUND),
            }
        }),
{
    if !review.is_well_formed() {
        answer(Status::Invalid, REVIEW_INVALID)
    } else {
        match review.id {
            Some(id) => update(
                Collection::Reviews,
                Filter::Record { id },
                Changes::Fields(Entity::Review(review)),
                REVIEW_UPDATED,
                REVIEW_NOT_FOUND,
                REVIEW_NOT_UPDATED,
            ),
            None => answer(Status::NotFound, REVIEW_NOT_FOUND),
        }
    }
}

/// Deletes the review kept under a key, given as text.
pub fn delete_review(id: &str) -> (plan: Plan)
    ensures
        plan == (match record_decoded(id@) {
            Ok(id) => deleting(
                Collection::Reviews,
                Filter::Record { id },
                Notice::Plain(REVIEW_DELETED),
                REVIEW_NOT_FOUND,
                REVIEW_NOT_DELETED,
            ),
            Err(_) => answering(Status::MalformedIdentifier, REVIEW_ID_MALFORMED),
        }),
{
    match RecordId::decode(id) {
        Ok(id) => delete(
            Collection::Reviews,
            Filter::Record { id },
            Notice::Plain(REVIEW_DELETED),
            REVIEW_NOT_FOUND,
            REVIEW_NOT_DELETED,
        ),
        Err(_) => answer(Status::MalformedIdentifier, REVIEW_ID_MALFORMED),
    }
}

/// Finds the review kept under a key, given as text.
pub fn find_review(id: &str) -> (plan: Plan)
    ensures
        plan == (match record_decoded(id@) {
            Ok(id) => fetching(
                Collection::Reviews,
                Filter::Record { id },
                REVIEW_NOT_FOUND,
                REVIEW_FIND_FAILED,
            ),
            Err(_) => answering(Status::MalformedIdentifier, REVIEW_ID_MALFORMED),
        }),
{
    match RecordId::decode(id) {
        Ok(id) => fetch(
            Collection::Reviews,
            Filter::Record { id },
            REVIEW_NOT_FOUND,
            REVIEW_FIND_FAILED,
        ),
        Err(_) => answer(Status::MalformedIdentifier, REVIEW_ID_MALFORMED),
    }
}

pub fn find_all_reviews() -> (plan: Plan)
    ensures
        plan == listing(Collection::Reviews, Filter::Everything, 0, None, REVIEWS_NOT_LISTED),
{
    list(Collection::Reviews, Filter::Everything, 0, None, REVIEWS_NOT_LISTED)
}

} // verus!

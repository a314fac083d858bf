//! Reviews of businesses: add, update, delete, find, list.
use vstd::prelude::*;
use crate::identity::{decoded, Identifier};
use crate::models::business_review::BusinessReview;
use crate::models::Entity;
use crate::plan::{Notice, Plan, Status};
use crate::recipe::{
    answer, answering, delete, deleting, fetch, fetching, insert, inserting, key, keyed, list,
    listing, update_if_present, updating_if_present,
};
use crate::store::{Changes, Collection, Filter, KeyField};

verus! {

pub const REVIEW_INVALID: &'static str = "Invalid review: the score is out of range";

pub const REVIEW_ADDED: &'static str = "review added successfully";

pub const REVIEW_NOT_ADDED: &'static str = "Failed to add review";

pub const REVIEW_MISSING: &'static str = "Error 10001 : Review does not exist";

pub const REVIEW_UPDATED: &'static str = "review updated successfully";

pub const REVIEW_NOT_UPDATED: &'static str = "Failed to update review";

pub const REVIEW_ID_MALFORMED: &'static str = "Invalid review ID format";

pub const REVIEW_DELETED: &'static str = "review deleted successfully";

pub const REVIEW_NOT_DELETED: &'static str = "Failed to delete review";

pub const REVIEW_NOT_FOUND: &'static str = "review not found";

pub const REVIEW_FIND_FAILED: &'static str = "Failed to find review";

pub const REVIEWS_NOT_LISTED: &'static str = "Failed to list reviews";

pub fn add_review(review: BusinessReview) -> (plan: Plan)
    ensures
        plan == (if review.well_formed() {
            inserting(
                Collection::Reviews,
                Entity::BusinessReview(review),
                REVIEW_ADDED,
                REVIEW_NOT_ADDED,
            )
        } else {
            answering(Status::Invalid, REVIEW_INVALID)
        }),
{
    if review.is_well_formed() {
        insert(Collection::Reviews, Entity::BusinessReview(review), REVIEW_ADDED, REVIEW_NOT_ADDED)
    } else {
        answer(Status::Invalid, REVIEW_INVALID)
    }
}

/// Updates a review, if it is there: its identifier and its time of
/// creation stay, everything else is set as sent.
pub fn update_review(business_review: BusinessReview) -> (plan: Plan)
    ensures
        plan == (if business_review.well_formed() {
            updating_if_present(
                Collection::Reviews,
                keyed(
                    Collection::Reviews,
                    KeyField::BusinessReviewId,
                    business_review.business_review_id,
                ),
                Changes::Fields(Entity::BusinessReview(business_review)),
                REVIEW_UPDATED,
                REVIEW_MISSING,
                REVIEW_NOT_UPDATED,
            )
        } else {
            answering(Status::Invalid, REVIEW_INVALID)
        }),
{
    if business_review.is_well_formed() {
        let filter = key(
            Collection::Reviews,
            KeyField::BusinessReviewId,
            business_review.business_review_id,
        );
        update_if_present(
            Collection::Reviews,
            filter,
            Changes::Fields(Entity::BusinessReview(business_review)),
            REVIEW_UPDATED,
            REVIEW_MISSING,
            REVIEW_NOT_UPDATED,
        )
    } else {
        answer(Status::Invalid, REVIEW_INVALID)
    }
}

/// Deletes a review by its identifier, given as text.
pub fn delete_review(business_review_id: &str) -> (plan: Plan)
    ensures
        plan == (match decoded(business_review_id@) {
            Ok(id) => deleting(
                Collection::Reviews,
                keyed(Collection::Reviews, KeyField::BusinessReviewId, id),
                Notice::Plain(REVIEW_DELETED),
                REVIEW_MISSING,
                REVIEW_NOT_DELETED,
            ),
            Err(_) => answering(Status::MalformedIdentifier, REVIEW_ID_MALFORMED),
        }),
{
    match Identifier::decode(business_review_id) {
        Ok(id) => delete(
            Collection::Reviews,
            key(Collection::Reviews, KeyField::BusinessReviewId, id),
            Notice::Plain(REVIEW_DELETED),
            REVIEW_MISSING,
            REVIEW_NOT_DELETED,
        ),
        Err(_) => answer(Status::MalformedIdentifier, REVIEW_ID_MALFORMED),
    }
}

/// Finds a review by its identifier, given as text.
pub fn find_review(business_review_id: &str) -> (plan: Plan)
    ensures
        plan == (match decoded(business_review_id@) {
            Ok(id) => fetching(
                Collection::Reviews,
                keyed(Collection::Reviews, KeyField::BusinessReviewId, id),
                REVIEW_NOT_FOUND,
                REVIEW_FIND_FAILED,
            ),
            Err(_) => answering(Status::MalformedIdentifier, REVIEW_ID_MALFORMED),
        }),
{
    match Identifier::decode(business_review_id) {
        Ok(id) => fetch(
            Collection::Reviews,
            key(Collection::Reviews, KeyField::BusinessReviewId, id),
            REVIEW_NOT_FOUND,
            REVIEW_FIND_FAILED,
        ),
        Err(_) => answer(Status::MalformedIdentifier, REVIEW_ID_MALFORMED),
    }
}

pub fn find_all_reviews() -> (plan: Plan)
    ensures
        plan == listing(Collection::Reviews, Filter::Everything, 0, None, REVIEWS_NOT_LISTED),
{
    list(Collection::Reviews, Filter::Everything, 0, None, REVIEWS_NOT_LISTED)
}

} // verus!

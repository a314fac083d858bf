//! Ratings: add, update, delete, find, list. A rating whose score is out of
//! range is turned away before the store hears of it.
use vstd::prelude::*;
use crate::identity::{decoded, Identifier};
use crate::models::rating::Rating;
use crate::models::Entity;
use crate::plan::{Notice, Plan, Status};
use crate::recipe::{
    answer, answering, delete, deleting, fetch, fetching, insert, inserting, key, keyed, list,
    listing, update, updating,
};
use crate::store::{Changes, Collection, Filter, KeyField};

verus! {

pub const RATING_INVALID: &'static str = "Invalid rating: the score is out of range";

pub const RATING_ADDED: &'static str = "rating added successfully";

pub const RATING_NOT_ADDED: &'static str = "Failed to add rating";

pub const RATING_UPDATED: &'static str = "rating updated successfully";

pub const RATING_NOT_UPDATED: &'static str = "Failed to update rating";

pub const RATING_ID_MALFORMED: &'static str = "Invalid rating ID format";

pub const RATING_DELETED: &'static str = "rating deleted successfully";

pub const RATING_NOT_DELETED: &'static str = "Failed to delete rating";

pub const RATING_NOT_FOUND: &'static str = "rating not found";

pub const RATING_FIND_FAILED: &'static str = "Failed to find rating";

pub const RATINGS_NOT_LISTED: &'static str = "Failed to list ratings";

pub fn add_rating(rating: Rating) -> (plan: Plan)
    ensures
        plan == (if rating.well_formed() {
            inserting(Collection::Ratings, Entity::Rating(rating), RATING_ADDED, RATING_NOT_ADDED)
        } else {
            answering(Status::Invalid, RATING_INVALID)
        }),
{
    if rating.is_well_formed() {
        insert(Collection::Ratings, Entity::Rating(rating), RATING_ADDED, RATING_NOT_ADDED)
    } else {
        answer(Status::Invalid, RATING_INVALID)
    }
}

/// Updates the score and the description of a rating.
pub fn update_rating(rating: Rating) -> (plan: Plan)
    ensures
        plan == (if rating.well_formed() {
            updating(
                Collection::Ratings,
                keyed(Collection::Ratings, KeyField::RatingId, rating.rating_id),
                Changes::Fields(Entity::Rating(rating)),
                RATING_UPDATED,
                RATING_NOT_FOUND,
                RATING_NOT_UPDATED,
            )
        } else {
            answering(Status::Invalid, RATING_INVALID)
        }),
{
    if rating.is_well_formed() {
        let filter = key(Collection::Ratings, KeyField::RatingId, rating.rating_id);
        update(
            Collection::Ratings,
            filter,
            Changes::Fields(Entity::Rating(rating)),
            RATING_UPDATED,
            RATING_NOT_FOUND,
            RATING_NOT_UPDATED,
        )
    } else {
        answer(Status::Invalid, RATING_INVALID)
    }
}

/// Deletes a rating by its identifier, given as text.
pub fn delete_rating(id: &str) -> (plan: Plan)
    ensures
        plan == (match decoded(id@) {
            Ok(id) => deleting(
                Collection::Ratings,
                keyed(Collection::Ratings, KeyField::RatingId, id),
                Notice::Plain(RATING_DELETED),
                RATING_NOT_FOUND,
                RATING_NOT_DELETED,
            ),
            Err(_) => answering(Status::MalformedIdentifier, RATING_ID_MALFORMED),
        }),
{
    match Identifier::decode(id) {
        Ok(id) => delete(
            Collection::Ratings,
            key(Collection::Ratings, KeyField::RatingId, id),
            Notice::Plain(RATING_DELETED),
            RATING_NOT_FOUND,
            RATING_NOT_DELETED,
        ),
        Err(_) => answer(Status::MalformedIdentifier, RATING_ID_MALFORMED),
    }
}

/// Finds a rating by its identifier, given as text.
pub fn find_rating(id: &str) -> (plan: Plan)
    ensures
        plan == (match decoded(id@) {
            Ok(id) => fetching(
                Collection::Ratings,
                keyed(Collection::Ratings, KeyField::RatingId, id),
                RATING_NOT_FOUND,
                RATING_FIND_FAILED,
            ),
            Err(_) => answering(Status::MalformedIdentifier, RATING_ID_MALFORMED),
        }),
{
    match Identifier::decode(id) {
        Ok(id) => fetch(
            Collection::Ratings,
            key(Collection::Ratings, KeyField::RatingId, id),
            RATING_NOT_FOUND,
            RATING_FIND_FAILED,
        ),
        Err(_) => answer(Status::MalformedIdentifier, RATING_ID_MALFORMED),
    }
}

pub fn find_all_ratings() -> (plan: Plan)
    ensures
        plan == listing(Collection::Ratings, Filter::Everything, 0, None, RATINGS_NOT_LISTED),
{
    list(Collection::Ratings, Filter::Everything, 0, None, RATINGS_NOT_LISTED)
}

} // verus!

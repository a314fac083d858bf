//! Trainings: add, update, delete, find, list. A training that ends before
//! it starts is turned away before the store hears of it.
use vstd::prelude::*;
use crate::identity::{decoded, Identifier};
use crate::models::training::Training;
use crate::models::Entity;
use crate::plan::{Notice, Plan, Status};
use crate::recipe::{
    answer, answering, delete, deleting, fetch, fetching, insert, inserting, key, keyed, list,
    listing, update, updating,
};
use crate::store::{Changes, Collection, Filter, KeyField};

verus! {

pub const TRAINING_INVALID: &'static str = "Invalid training: it ends before it starts";

pub const TRAINING_ADDED: &'static str = "training added successfully";

pub const TRAINING_NOT_ADDED: &'static str = "Failed to add training";

pub const TRAINING_UPDATED: &'static str = "training updated successfully";

pub const TRAINING_NOT_UPDATED: &'static str = "Failed to update training";

pub const TRAINING_ID_MALFORMED: &'static str = "Invalid training ID format";

pub const TRAINING_DELETED: &'static str = "training deleted successfully";

pub const TRAINING_NOT_DELETED: &'static str = "Failed to delete training";

pub const TRAINING_NOT_FOUND: &'static str = "training not found";

pub const TRAINING_FIND_FAILED: &'static str = "Failed to find training";

pub const TRAININGS_NOT_LISTED: &'static str = "Failed to list trainings";

pub fn add_training(training: Training) -> (plan: Plan)
    ensures
        plan == (if training.well_formed() {
            inserting(
                Collection::Trainings,
                Entity::Training(training),
                TRAINING_ADDED,
                TRAINING_NOT_ADDED,
            )
        } else {
            answering(Status::Invalid, TRAINING_INVALID)
        }),
{
    if training.is_well_formed() {
        insert(
            Collection::Trainings,
            Entity::Training(training),
            TRAINING_ADDED,
            TRAINING_NOT_ADDED,
        )
    } else {
        answer(Status::Invalid, TRAINING_INVALID)
    }
}

/// Updates a training: its identifier and its time of creation stay,
/// everything else is set as sent.
pub fn update_training(training: Training) -> (plan: Plan)
    ensures
        plan == (if training.well_formed() {
            updating(
                Collection::Trainings,
                keyed(Collection::Trainings, KeyField::TrainingId, training.training_id),
                Changes::Fields(Entity::Training(training)),
                TRAINING_UPDATED,
                TRAINING_NOT_FOUND,
                TRAINING_NOT_UPDATED,
            )
        } else {
            answering(Status::Invalid, TRAINING_INVALID)
        }),
{
    if training.is_well_formed() {
        let filter = key(Collection::Trainings, KeyField::TrainingId, training.training_id);
        update(
            Collection::Trainings,
            filter,
            Changes::Fields(Entity::Training(training)),
            TRAINING_UPDATED,
            TRAINING_NOT_FOUND,
            TRAINING_NOT_UPDATED,
        )
    } else {
        answer(Status::Invalid, TRAINING_INVALID)
    }
}

/// Deletes a training by its identifier, given as text.
pub fn delete_training(id: &str) -> (plan: Plan)
    ensures
        plan == (match decoded(id@) {
            Ok(id) => deleting(
                Collection::Trainings,
                keyed(Collection::Trainings, KeyField::TrainingId, id),
                Notice::Plain(TRAINING_DELETED),
                TRAINING_NOT_FOUND,
                TRAINING_NOT_DELETED,
            ),
            Err(_) => answering(Status::MalformedIdentifier, TRAINING_ID_MALFORMED),
        }),
{
    match Identifier::decode(id) {
        Ok(id) => delete(
            Collection::Trainings,
            key(Collection::Trainings, KeyField::TrainingId, id),
            Notice::Plain(TRAINING_DELETED),
            TRAINING_NOT_FOUND,
            TRAINING_NOT_DELETED,
        ),
        Err(_) => answer(Status::MalformedIdentifier, TRAINING_ID_MALFORMED),
    }
}

/// Finds a training by its identifier, given as text.
pub fn find_training(id: &str) -> (plan: Plan)
    ensures
        plan == (match decoded(id@) {
            Ok(id) => fetching(
                Collection::Trainings,
                keyed(Collection::Trainings, KeyField::TrainingId, id),
                TRAINING_NOT_FOUND,
                TRAINING_FIND_FAILED,
            ),
            Err(_) => answering(Status::MalformedIdentifier, TRAINING_ID_MALFORMED),
        }),
{
    match Identifier::decode(id) {
        Ok(id) => fetch(
            Collection::Trainings,
            key(Collection::Trainings, KeyField::TrainingId, id),
            TRAINING_NOT_FOUND,
            TRAINING_FIND_FAILED,
        ),
        Err(_) => answer(Status::MalformedIdentifier, TRAINING_ID_MALFORMED),
    }
}

pub fn find_all_trainings() -> (plan: Plan)
    ensures
        plan == listing(Collection::Trainings, Filter::Everything, 0, None, TRAININGS_NOT_LISTED),
{
    list(Collection::Trainings, Filter::Everything, 0, None, TRAININGS_NOT_LISTED)
}

} // verus!

//! Trainings that a user offers.
use vstd::prelude::*;
use crate::clock::Timestamp;
use crate::identity::Identifier;

verus! {

#[derive(Clone, Debug, PartialEq, Eq)]
pub struct Training {
    pub training_id: Identifier,
    pub trainer_id: Identifier,
    pub title: String,
    pub description: String,
    pub start_date: Option<Timestamp>,
    pub end_date: Option<Timestamp>,
    pub duration: String,
    pub created_at: Timestamp,
    pub updated_at: Timestamp,
}

impl Training {
    /// A training with a new identifier, created now.
    pub fn new(
        trainer_id: Identifier,
        title: String,
        description: String,
        start_date: Option<Timestamp>,
        end_date: Option<Timestamp>,
        duration: String,
    ) -> (training: Training)
        ensures
            training == (Training {
                training_id: training.training_id,
                trainer_id,
                title,
                description,
                start_date,
                end_date,
                duration,
                created_at: training.created_at,
                updated_at: training.created_at,
            }),
    {
        let now = Timestamp::now();
        Training {
            training_id: Identifier::fresh(),
            trainer_id,
            title,
            description,
            start_date,
            end_date,
            duration,
            created_at: now,
            updated_at: now,
        }
    }

    /// Where both dates are given, the training does not end before it starts.
    pub open spec fn well_formed(self) -> bool {
        match (self.start_date, self.end_date) {
            (Some(start), Some(end)) => start.not_after(end),
            _ => true,
        }
    }

    pub fn is_well_formed(&self) -> (answer: bool)
        ensures
            answer == self.well_formed(),
    {
        match (&self.start_date, &self.end_date) {
            (Some(start), Some(end)) => start.is_not_after(end),
            _ => true,
        }
    }
}

} // verus!

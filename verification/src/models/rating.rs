//! Ratings: a score from one to five.
use vstd::prelude::*;
use crate::identity::Identifier;

verus! {

pub const LOWEST_SCORE: i32 = 1;

pub const HIGHEST_SCORE: i32 = 5;

/// A score lies in the range that ratings allow.
pub open spec fn score_in_range(score: i32) -> bool {
    LOWEST_SCORE <= score <= HIGHEST_SCORE
}

pub fn is_score_in_range(score: i32) -> (answer: bool)
    ensures
        answer == score_in_range(score),
{
    LOWEST_SCORE <= score && score <= HIGHEST_SCORE
}

#[derive(Clone, Debug, PartialEq, Eq)]
pub struct Rating {
    pub rating_id: Identifier,
    pub score: i32,
    pub description: Option<String>,
}

impl Rating {
    /// A rating with a new identifier and no description.
    pub fn new(score: i32) -> (rating: Rating)
        ensures
            rating == (Rating { rating_id: rating.rating_id, score, description: None }),
    {
        Rating { rating_id: Identifier::fresh(), score, description: None }
    }

    pub open spec fn well_formed(self) -> bool {
        score_in_range(self.score)
    }

    pub fn is_well_formed(&self) -> (answer: bool)
        ensures
            answer == self.well_formed(),
    {
        is_score_in_range(self.score)
    }
}

} // verus!

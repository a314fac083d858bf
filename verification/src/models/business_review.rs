//! Reviews of a business, written by a user.
use vstd::prelude::*;
use crate::clock::Timestamp;
use crate::identity::Identifier;
use crate::models::rating::Rating;

verus! {

#[derive(Clone, Debug, PartialEq, Eq)]
pub struct BusinessReview {
    pub business_review_id: Identifier,
    pub reviewer_id: Identifier,
    pub business_id: Identifier,
    pub rating: Rating,
    pub comment: Option<String>,
    pub review_link: Option<String>,
    pub created_at: Timestamp,
    pub updated_at: Timestamp,
}

impl BusinessReview {
    /// A review under the identifier given, created now.
    pub fn new(
        business_review_id: Identifier,
        reviewer_id: Identifier,
        business_id: Identifier,
        rating: Rating,
        comment: Option<String>,
        review_link: Option<String>,
    ) -> (review: BusinessReview)
        ensures
            review == (BusinessReview {
                business_review_id,
                reviewer_id,
                business_id,
                rating,
                comment,
                review_link,
                created_at: review.created_at,
                updated_at: review.created_at,
            }),
    {
        let now = Timestamp::now();
        BusinessReview {
            business_review_id,
            reviewer_id,
            business_id,
            rating,
            comment,
            review_link,
            created_at: now,
            updated_at: now,
        }
    }

    pub open spec fn well_formed(self) -> bool {
        self.rating.well_formed()
    }

    pub fn is_well_formed(&self) -> (answer: bool)
        ensures
            answer == self.well_formed(),
    {
        self.rating.is_well_formed()
    }
}

} // verus!

//! Reviews of a product, kept under the key that the store gives them.
use vstd::prelude::*;
use crate::identity::RecordId;
use crate::models::rating::{is_score_in_range, score_in_range};

verus! {

#[derive(Clone, Debug, PartialEq, Eq)]
pub struct Review {
    /// The store's key for the review; `None` until it is stored.
    pub id: Option<RecordId>,
    pub user_id: String,
    pub product_id: String,
    pub rating: i32,
    pub comment: Option<String>,
}

impl Review {
    pub open spec fn well_formed(self) -> bool {
        score_in_range(self.rating)
    }

    pub fn is_well_formed(&self) -> (answer: bool)
        ensures
            answer == self.well_formed(),
    {
        is_score_in_range(self.rating)
    }
}

} // verus!

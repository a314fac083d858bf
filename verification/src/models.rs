//! The entities, one module each, and [`Entity`], which is any one of them.
use vstd::prelude::*;
use crate::models::business::Business;
use crate::models::business_review::BusinessReview;
use crate::models::message::Message;
use crate::models::notification::Notification;
use crate::models::payment::Payment;
use crate::models::profile::Profile;
use crate::models::rating::Rating;
use crate::models::review::Review;
use crate::models::training::Training;
use crate::models::user::User;

pub mod business;
pub mod business_review;
pub mod message;
pub mod notification;
pub mod payment;
pub mod payment_type;
pub mod profile;
pub mod rating;
pub mod review;
pub mod training;
pub mod user;

verus! {

/// A document of any collection.
#[derive(Clone, Debug, PartialEq, Eq)]
pub enum Entity {
    User(User),
    Profile(Profile),
    Business(Business),
    Payment(Payment),
    Training(Training),
    Message(Message),
    Notification(Notification),
    BusinessReview(BusinessReview),
    Review(Review),
    Rating(Rating),
}

impl Entity {
    /// The entity keeps the rules of its kind: a score in range, a training
    /// that does not end before it starts.
    pub open spec fn well_formed(self) -> bool {
        match self {
            Entity::Training(training) => training.well_formed(),
            Entity::BusinessReview(review) => review.well_formed(),
            Entity::Review(review) => review.well_formed(),
            Entity::Rating(rating) => rating.well_formed(),
            _ => true,
        }
    }

    pub fn is_well_formed(&self) -> (answer: bool)
        ensures
            answer == self.well_formed(),
    {
        match self {
            Entity::Training(training) => training.is_well_formed(),
            Entity::BusinessReview(review) => review.is_well_formed(),
            Entity::Review(review) => review.is_well_formed(),
            Entity::Rating(rating) => rating.is_well_formed(),
            _ => true,
        }
    }
}

} // verus!

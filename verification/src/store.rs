//! What is asked of the document store and what it answers, and a model of
//! a store that answers faithfully.
//!
//! The store keeps documents in collections. It holds no reference from one
//! collection to another, and the one rule it enforces is a unique index on
//! the natural key of the collections that have one: it refuses a write
//! that would give two documents the same key. A query names one field and a
//! value. An identifier in a query is written in one [`Encoding`]; a
//! collection holds its identifiers in one encoding, and a query in the
//! other finds nothing there, without any error.
use vstd::prelude::*;
use crate::clock::Timestamp;
use crate::identity::{Encoding, Identifier, RecordId};
use crate::models::business::Business;
use crate::models::business_review::BusinessReview;
use crate::models::payment::Payment;
use crate::models::profile::Profile;
use crate::models::rating::Rating;
use crate::models::review::Review;
use crate::models::training::Training;
use crate::models::user::User;
use crate::models::Entity;

verus! {

#[derive(Clone, Copy, Debug, PartialEq, Eq, Structural, Hash)]
pub enum Collection {
    Users,
    Profiles,
    Businesses,
    Payments,
    Trainings,
    Messages,
    Notifications,
    Reviews,
    Ratings,
}

impl Collection {
    /// The form in which the collection holds identifiers.
    pub open spec fn encoding(self) -> Encoding {
        match self {
            Collection::Profiles | Collection::Businesses => Encoding::Binary,
            _ => Encoding::Text,
        }
    }

    /// The collection's name in the database.
    pub open spec fn title(self) -> &'static str {
        match self {
            Collection::Users => "users",
            Collection::Profiles => "profiles",
            Collection::Businesses => "businesses",
            Collection::Payments => "payments",
            Collection::Trainings => "trainings",
            Collection::Messages => "messages",
            Collection::Notifications => "notifications",
            Collection::Reviews => "reviews",
            Collection::Ratings => "ratings",
        }
    }

    /// The field that holds the natural key of the collection's documents,
    /// under a unique index: the name of a user, the email of a profile, the
    /// name of a business.
    pub open spec fn natural_key(self) -> Option<TextField> {
        match self {
            Collection::Users => Some(TextField::Username),
            Collection::Profiles => Some(TextField::Email),
            Collection::Businesses => Some(TextField::Name),
            _ => None,
        }
    }

    pub fn unique_field(&self) -> (field: Option<TextField>)
        ensures
            field == self.natural_key(),
    {
        match self {
            Collection::Users => Some(TextField::Username),
            Collection::Profiles => Some(TextField::Email),
            Collection::Businesses => Some(TextField::Name),
            _ => None,
        }
    }

    pub fn stored_as(&self) -> (form: Encoding)
        ensures
            form == self.encoding(),
    {
        match self {
            Collection::Profiles | Collection::Businesses => Encoding::Binary,
            _ => Encoding::Text,
        }
    }

    pub fn name(&self) -> (name: &'static str)
        ensures
            name == self.title(),
    {
        match self {
            Collection::Users => "users",
            Collection::Profiles => "profiles",
            Collection::Businesses => "businesses",
            Collection::Payments => "payments",
            Collection::Trainings => "trainings",
            Collection::Messages => "messages",
            Collection::Notifications => "notifications",
            Collection::Reviews => "reviews",
            Collection::Ratings => "ratings",
        }
    }
}

/// A field that holds a natural key.
#[derive(Clone, Copy, Debug, PartialEq, Eq, Structural, Hash)]
pub enum TextField {
    Username,
    Email,
    Name,
}

/// A field that holds an identifier.
#[derive(Clone, Copy, Debug, PartialEq, Eq, Structural, Hash)]
pub enum KeyField {
    UserId,
    ProfileId,
    BusinessId,
    PaymentId,
    PurchaserId,
    SellerId,
    TrainingId,
    MessageId,
    RatingId,
    BusinessReviewId,
}

/// Which documents of a collection a command is about.
#[derive(Clone, Debug, PartialEq, Eq)]
pub enum Filter {
    /// All of them.
    Everything,
    /// Those whose field holds this text.
    Text { field: TextField, value: String },
    /// Those whose field holds this identifier, written in this encoding.
    Key { field: KeyField, id: Identifier, encoding: Encoding },
    /// The businesses that list this user, written in this encoding, as an owner.
    Owner { id: Identifier, encoding: Encoding },
    /// The one that the store keeps under this key.
    Record { id: RecordId },
}

/// What an update sets.
#[derive(Clone, Debug, PartialEq, Eq)]
pub enum Changes {
    /// The fields that may change, as this entity has them.
    Fields(Entity),
    /// A user's password digest.
    Password(String),
    /// A notification's confirmation.
    Confirm,
}

/// One request to the store.
#[derive(Clone, Debug, PartialEq, Eq)]
pub enum Command {
    FindOne { collection: Collection, filter: Filter },
    /// The matching documents in the store's order, without the first `skip`
    /// and at most `limit` of them.
    FindMany { collection: Collection, filter: Filter, skip: u64, limit: Option<u64> },
    InsertOne { collection: Collection, entity: Entity },
    /// Changes the first matching document and stamps it with `at`.
    UpdateOne { collection: Collection, filter: Filter, changes: Changes, at: Timestamp },
    DeleteOne { collection: Collection, filter: Filter },
}

/// The store's answer to one request.
#[derive(Clone, Debug, PartialEq, Eq)]
pub enum Outcome {
    Found(Option<Entity>),
    Listed(Vec<Entity>),
    Inserted,
    Updated { matched: u64 },
    Deleted { count: u64 },
    /// The store refused the write: it would have given two documents of the
    /// collection the same natural key.
    Duplicate,
    /// The store could not carry the request out.
    Failed,
}

/// A document as the store holds it: under a key of the store's own, in one collection.
#[derive(Clone, Debug, PartialEq, Eq)]
pub struct Record {
    pub key: RecordId,
    pub collection: Collection,
    pub entity: Entity,
}

impl Entity {
    /// The identifier in a field, where the entity has that field.
    pub open spec fn key(self, field: KeyField) -> Option<Identifier> {
        match (self, field) {
            (Entity::User(user), KeyField::UserId) => Some(user.user_id),
            (Entity::Profile(profile), KeyField::ProfileId) => Some(profile.profile_id),
            (Entity::Profile(profile), KeyField::UserId) => Some(profile.user_id),
            (Entity::Business(business), KeyField::BusinessId) => Some(business.business_id),
            (Entity::Payment(payment), KeyField::PaymentId) => Some(payment.payment_id),
            (Entity::Payment(payment), KeyField::PurchaserId) => Some(payment.purchaser_id),
            (Entity::Payment(payment), KeyField::SellerId) => Some(payment.seller_id),
            (Entity::Training(training), KeyField::TrainingId) => Some(training.training_id),
            (Entity::Message(message), KeyField::MessageId) => Some(message.message_id),
            (Entity::Notification(notification), KeyField::UserId) => Some(notification.user_id),
            (Entity::BusinessReview(review), KeyField::BusinessReviewId) => Some(
                review.business_review_id,
            ),
            (Entity::BusinessReview(review), KeyField::BusinessId) => Some(review.business_id),
            (Entity::Rating(rating), KeyField::RatingId) => Some(rating.rating_id),
            _ => None,
        }
    }

    /// The text in a field, where the entity has that field.
    pub open spec fn text(self, field: TextField) -> Option<Seq<char>> {
        match (self, field) {
            (Entity::User(user), TextField::Username) => Some(user.username@),
            (Entity::User(user), TextField::Email) => Some(user.email@),
            (Entity::Profile(profile), TextField::Username) => Some(profile.username@),
            (Entity::Profile(profile), TextField::Email) => Some(profile.email@),
            (Entity::Business(business), TextField::Name) => Some(business.name@),
            _ => None,
        }
    }

    /// `user` is listed as an owner of this business.
    pub open spec fn owned_by(self, user: Identifier) -> bool {
        match self {
            Entity::Business(business) => business.owned_by(user),
            _ => false,
        }
    }

    pub fn key_of(&self, field: KeyField) -> (id: Option<Identifier>)
        ensures
            id == self.key(field),
    {
        match (self, field) {
            (Entity::User(user), KeyField::UserId) => Some(user.user_id),
            (Entity::Profile(profile), KeyField::ProfileId) => Some(profile.profile_id),
            (Entity::Profile(profile), KeyField::UserId) => Some(profile.user_id),
            (Entity::Business(business), KeyField::BusinessId) => Some(business.business_id),
            (Entity::Payment(payment), KeyField::PaymentId) => Some(payment.payment_id),
            (Entity::Payment(payment), KeyField::PurchaserId) => Some(payment.purchaser_id),
            (Entity::Payment(payment), KeyField::SellerId) => Some(payment.seller_id),
            (Entity::Training(training), KeyField::TrainingId) => Some(training.training_id),
            (Entity::Message(message), KeyField::MessageId) => Some(message.message_id),
            (Entity::Notification(notification), KeyField::UserId) => Some(notification.user_id),
            (Entity::BusinessReview(review), KeyField::BusinessReviewId) => Some(
                review.business_review_id,
            ),
            (Entity::BusinessReview(review), KeyField::BusinessId) => Some(review.business_id),
            (Entity::Rating(rating), KeyField::RatingId) => Some(rating.rating_id),
            _ => None,
        }
    }

    /// The two entities hold the same text in a field that both have.
    pub open spec fn shares_text(self, field: TextField, other: Entity) -> bool {
        self.text(field) is Some && self.text(field) == other.text(field)
    }

    pub fn has_text_of(&self, field: TextField, other: &Entity) -> (answer: bool)
        ensures
            answer == self.shares_text(field, *other),
    {
        match (other, field) {
            (Entity::User(user), TextField::Username) => self.has_text(field, &user.username),
            (Entity::User(user), TextField::Email) => self.has_text(field, &user.email),
            (Entity::Profile(profile), TextField::Username) => self.has_text(
                field,
                &profile.username,
            ),
            (Entity::Profile(profile), TextField::Email) => self.has_text(field, &profile.email),
            (Entity::Business(business), TextField::Name) => self.has_text(field, &business.name),
            _ => false,
        }
    }

    pub fn has_text(&self, field: TextField, value: &String) -> (answer: bool)
        ensures
            answer == (self.text(field) == Some(value@)),
    {
        match (self, field) {
            (Entity::User(user), TextField::Username) => user.username == *value,
            (Entity::User(user), TextField::Email) => user.email == *value,
            (Entity::Profile(profile), TextField::Username) => profile.username == *value,
            (Entity::Profile(profile), TextField::Email) => profile.email == *value,
            (Entity::Business(business), TextField::Name) => business.name == *value,
            _ => false,
        }
    }
}

impl Filter {
    /// The filter selects this document of this collection.
    pub open spec fn holds(self, collection: Collection, key: RecordId, entity: Entity) -> bool {
        match self {
            Filter::Everything => true,
            Filter::Text { field, value } => entity.text(field) == Some(value@),
            Filter::Key { field, id, encoding } => encoding == collection.encoding() && entity.key(
                field,
            ) == Some(id),
            Filter::Owner { id, encoding } => encoding == collection.encoding() && entity.owned_by(
                id,
            ),
            Filter::Record { id } => key == id,
        }
    }

    /// The filter selects this record of this collection.
    pub open spec fn hits(self, collection: Collection, record: Record) -> bool {
        record.collection == collection && self.holds(collection, record.key, record.entity)
    }

    /// A second filter like this one.
    pub fn copy(&self) -> (twin: Filter)
        ensures
            twin == *self,
    {
        match self {
            Filter::Everything => Filter::Everything,
            Filter::Text { field, value } => Filter::Text { field: *field, value: value.clone() },
            Filter::Key { field, id, encoding } => Filter::Key {
                field: *field,
                id: *id,
                encoding: *encoding,
            },
            Filter::Owner { id, encoding } => Filter::Owner { id: *id, encoding: *encoding },
            Filter::Record { id } => Filter::Record { id: *id },
        }
    }

    /// Tests a record as [`Filter::hits`] says.
    pub fn admits(&self, collection: Collection, record: &Record) -> (answer: bool)
        ensures
            answer == self.hits(collection, *record),
    {
        if record.collection != collection {
            return false;
        }
        match self {
            Filter::Everything => true,
            Filter::Text { field, value } => record.entity.has_text(*field, value),
            Filter::Key { field, id, encoding } => {
                if *encoding != collection.stored_as() {
                    false
                } else {
                    match record.entity.key_of(*field) {
                        Some(found) => found == *id,
                        None => false,
                    }
                }
            },
            Filter::Owner { id, encoding } => {
                if *encoding != collection.stored_as() {
                    false
                } else {
                    match &record.entity {
                        Entity::Business(business) => business.is_owned_by(*id),
                        _ => false,
                    }
                }
            },
            Filter::Record { id } => record.key == *id,
        }
    }
}

/// The entity after an update: the fields that may change are taken from
/// the changes, the time of the update is stamped, and the identifier and
/// the time of creation stay. Changes meant for another kind of entity
/// change nothing. A notification can only be confirmed; a message cannot be
/// changed at all.
pub open spec fn revised(old: Entity, changes: Changes, at: Timestamp) -> Entity {
    match (old, changes) {
        (Entity::User(old), Changes::Fields(Entity::User(new))) => Entity::User(
            User {
                username: new.username,
                email: new.email,
                password: new.password,
                user_type: new.user_type,
                updated_at: at,
                ..old
            },
        ),
        (Entity::User(old), Changes::Password(digest)) => Entity::User(
            User { password: digest, updated_at: at, ..old },
        ),
        (Entity::Profile(old), Changes::Fields(Entity::Profile(new))) => Entity::Profile(
            Profile { username: new.username, bio: new.bio, updated_at: at, ..old },
        ),
        (Entity::Business(old), Changes::Fields(Entity::Business(new))) => Entity::Business(
            Business {
                business_id: old.business_id,
                user_ids: old.user_ids,
                created_at: old.created_at,
                updated_at: at,
                ..new
            },
        ),
        (Entity::Payment(old), Changes::Fields(Entity::Payment(new))) => Entity::Payment(
            Payment { payment_id: old.payment_id, created_at: old.created_at, updated_at: at, ..new },
        ),
        (Entity::Training(old), Changes::Fields(Entity::Training(new))) => Entity::Training(
            Training {
                training_id: old.training_id,
                created_at: old.created_at,
                updated_at: at,
                ..new
            },
        ),
        (Entity::BusinessReview(old), Changes::Fields(Entity::BusinessReview(new))) => {
            Entity::BusinessReview(
                BusinessReview {
                    business_review_id: old.business_review_id,
                    created_at: old.created_at,
                    updated_at: at,
                    ..new
                },
            )
        },
        (Entity::Review(old), Changes::Fields(Entity::Review(new))) => Entity::Review(
            Review { id: old.id, ..new },
        ),
        (Entity::Rating(old), Changes::Fields(Entity::Rating(new))) => Entity::Rating(
            Rating { rating_id: old.rating_id, ..new },
        ),
        (Entity::Notification(old), Changes::Confirm) => Entity::Notification(
            old.confirmed_at(at),
        ),
        (old, _) => old,
    }
}

/// Applies an update to an entity, as [`revised`] says.
pub fn revise(old: Entity, changes: Changes, at: Timestamp) -> (new: Entity)
    ensures
        new == revised(old, changes, at),
{
    match (old, changes) {
        (Entity::User(old), Changes::Fields(Entity::User(new))) => Entity::User(
            User {
                username: new.username,
                email: new.email,
                password: new.password,
                user_type: new.user_type,
                updated_at: at,
                ..old
            },
        ),
        (Entity::User(old), Changes::Password(digest)) => Entity::User(
            User { password: digest, updated_at: at, ..old },
        ),
        (Entity::Profile(old), Changes::Fields(Entity::Profile(new))) => Entity::Profile(
            Profile { username: new.username, bio: new.bio, updated_at: at, ..old },
        ),
        (Entity::Business(old), Changes::Fields(Entity::Business(new))) => Entity::Business(
            Business {
                business_id: old.business_id,
                user_ids: old.user_ids,
                created_at: old.created_at,
                updated_at: at,
                ..new
            },
        ),
        (Entity::Payment(old), Changes::Fields(Entity::Payment(new))) => Entity::Payment(
            Payment { payment_id: old.payment_id, created_at: old.created_at, updated_at: at, ..new },
        ),
        (Entity::Training(old), Changes::Fields(Entity::Training(new))) => Entity::Training(
            Training {
                training_id: old.training_id,
                created_at: old.created_at,
                updated_at: at,
                ..new
            },
        ),
        (Entity::BusinessReview(old), Changes::Fields(Entity::BusinessReview(new))) => {
            Entity::BusinessReview(
                BusinessReview {
                    business_review_id: old.business_review_id,
                    created_at: old.created_at,
                    updated_at: at,
                    ..new
                },
            )
        },
        (Entity::Review(old), Changes::Fields(Entity::Review(new))) => Entity::Review(
            Review { id: old.id, ..new },
        ),
        (Entity::Rating(old), Changes::Fields(Entity::Rating(new))) => Entity::Rating(
            Rating { rating_id: old.rating_id, ..new },
        ),
        (Entity::Notification(old), Changes::Confirm) => Entity::Notification(old.confirm(at)),
        (old, _) => old,
    }
}

} // verus!

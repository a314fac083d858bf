//! Payments: add, update, delete, find, list, and list by party. The
//! payments that a user made and the payments that a user received are two
//! views of one collection.
use vstd::prelude::*;
use crate::identity::{decoded, Identifier};
use crate::models::payment::Payment;
use crate::models::Entity;
use crate::plan::{Notice, Plan, Status};
use crate::recipe::{
    answer, answering, delete, deleting, fetch, fetching, insert, inserting, key, keyed, list,
    listing, update_if_present, updating_if_present,
};
use crate::store::{Changes, Collection, Filter, KeyField};

verus! {

pub const PAYMENT_ADDED: &'static str = "payment added successfully";

pub const PAYMENT_NOT_ADDED: &'static str = "Failed to add payment";

pub const PAYMENT_MISSING: &'static str = "Error 10001 : Payment does not exist";

pub const PAYMENT_UPDATED: &'static str = "payment updated successfully";

pub const PAYMENT_NOT_UPDATED: &'static str = "Failed to update payment";

pub const PAYMENT_ID_MALFORMED: &'static str = "Invalid payment ID format";

pub const PAYMENT_NOT_DELETED: &'static str = "Failed to delete payment";

pub const PAYMENT_NOT_FOUND: &'static str = "payment not found";

pub const PAYMENT_FIND_FAILED: &'static str = "Failed to find payment";

pub const PAYMENTS_NOT_LISTED: &'static str = "Failed to list payments";

pub const PARTY_ID_MALFORMED: &'static str = "Invalid user ID format";

pub fn add_payment(payment: Payment) -> (plan: Plan)
    ensures
        plan == inserting(
            Collection::Payments,
            Entity::Payment(payment),
            PAYMENT_ADDED,
            PAYMENT_NOT_ADDED,
        ),
{
    insert(Collection::Payments, Entity::Payment(payment), PAYMENT_ADDED, PAYMENT_NOT_ADDED)
}

/// Updates a payment, if it is there: its identifier and its time of
/// creation stay, everything else is set as sent.
pub fn update_payment(payment: Payment) -> (plan: Plan)
    ensures
        plan == updating_if_present(
            Collection::Payments,
            keyed(Collection::Payments, KeyField::PaymentId, payment.payment_id),
            Changes::Fields(Entity::Payment(payment)),
            PAYMENT_UPDATED,
            PAYMENT_MISSING,
            PAYMENT_NOT_UPDATED,
        ),
{
    let filter = key(Collection::Payments, KeyField::PaymentId, payment.payment_id);
    update_if_present(
        Collection::Payments,
        filter,
        Changes::Fields(Entity::Payment(payment)),
        PAYMENT_UPDATED,
        PAYMENT_MISSING,
        PAYMENT_NOT_UPDATED,
    )
}

/// Deletes a payment by its identifier, given as text. The message of
/// success names the payment as the request wrote it.
pub fn delete_payment(payment_id: String) -> (plan: Plan)
    ensures
        plan == (match decoded(payment_id@) {
            Ok(id) => deleting(
                Collection::Payments,
                keyed(Collection::Payments, KeyField::PaymentId, id),
                Notice::PaymentDeleted { id: payment_id },
                PAYMENT_MISSING,
                PAYMENT_NOT_DELETED,
            ),
            Err(_) => answering(Status::MalformedIdentifier, PAYMENT_ID_MALFORMED),
        }),
{
    match Identifier::decode(payment_id.as_str()) {
        Ok(id) => delete(
            Collection::Payments,
            key(Collection::Payments, KeyField::PaymentId, id),
            Notice::PaymentDeleted { id: payment_id },
            PAYMENT_MISSING,
            PAYMENT_NOT_DELETED,
        ),
        Err(_) => answer(Status::MalformedIdentifier, PAYMENT_ID_MALFORMED),
    }
}

/// Finds a payment by its identifier, given as text.
pub fn find_payment(payment_id: &str) -> (plan: Plan)
    ensures
        plan == (match decoded(payment_id@) {
            Ok(id) => fetching(
                Collection::Payments,
                keyed(Collection::Payments, KeyField::PaymentId, id),
                PAYMENT_NOT_FOUND,
                PAYMENT_FIND_FAILED,
            ),
            Err(_) => answering(Status::MalformedIdentifier, PAYMENT_ID_MALFORMED),
        }),
{
    match Identifier::decode(payment_id) {
        Ok(id) => fetch(
            Collection::Payments,
            key(Collection::Payments, KeyField::PaymentId, id),
            PAYMENT_NOT_FOUND,
            PAYMENT_FIND_FAILED,
        ),
        Err(_) => answer(Status::MalformedIdentifier, PAYMENT_ID_MALFORMED),
    }
}

pub fn find_all_payments() -> (plan: Plan)
    ensures
        plan == listing(Collection::Payments, Filter::Everything, 0, None, PAYMENTS_NOT_LISTED),
{
    list(Collection::Payments, Filter::Everything, 0, None, PAYMENTS_NOT_LISTED)
}

/// The plan that lists the payments in which a user has one role.
pub open spec fn payments_of(role: KeyField, party: Seq<char>) -> Plan {
    match decoded(party) {
        Ok(id) => listing(
            Collection::Payments,
            keyed(Collection::Payments, role, id),
            0,
            None,
            PAYMENTS_NOT_LISTED,
        ),
        Err(_) => answering(Status::MalformedIdentifier, PARTY_ID_MALFORMED),
    }
}

fn list_payments_of(role: KeyField, party: &str) -> (plan: Plan)
    ensures
        plan == payments_of(role, party@),
{
    match Identifier::decode(party) {
        Ok(id) => list(
            Collection::Payments,
            key(Collection::Payments, role, id),
            0,
            None,
            PAYMENTS_NOT_LISTED,
        ),
        Err(_) => answer(Status::MalformedIdentifier, PARTY_ID_MALFORMED),
    }
}

/// Lists the payments that a user received.
pub fn find_payments_by_seller_id(seller_id: &str) -> (plan: Plan)
    ensures
        plan == payments_of(KeyField::SellerId, seller_id@),
{
    list_payments_of(KeyField::SellerId, seller_id)
}

/// Lists the payments that a user made.
pub fn find_payments_by_purchaser_id(purchaser_id: &str) -> (plan: Plan)
    ensures
        plan == payments_of(KeyField::PurchaserId, purchaser_id@),
{
    list_payments_of(KeyField::PurchaserId, purchaser_id)
}

} // verus!

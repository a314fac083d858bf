//! Payments from a purchaser to a seller.
use vstd::prelude::*;
use crate::clock::Timestamp;
use crate::identity::Identifier;
use crate::models::payment_type::PaymentType;

verus! {

#[derive(Clone, Debug, PartialEq, Eq)]
pub struct Payment {
    pub payment_id: Identifier,
    pub purchaser_id: Identifier,
    pub seller_id: Identifier,
    pub payment_type: PaymentType,
    pub description: Option<String>,
    /// The amount in hundredths of the currency's unit; it cannot be negative.
    pub amount: u64,
    pub currency: String,
    /// `COMPLETED`, `PENDING` or another word: the set is open.
    pub status: String,
    pub created_at: Timestamp,
    pub updated_at: Timestamp,
}

impl Payment {
    /// A payment with a new identifier, created now.
    pub fn new(
        purchaser_id: Identifier,
        seller_id: Identifier,
        payment_type: PaymentType,
        description: Option<String>,
        amount: u64,
        currency: String,
        status: String,
    ) -> (payment: Payment)
        ensures
            payment == (Payment {
                payment_id: payment.payment_id,
                purchaser_id,
                seller_id,
                payment_type,
                description,
                amount,
                currency,
                status,
                created_at: payment.created_at,
                updated_at: payment.created_at,
            }),
    {
        let now = Timestamp::now();
        Payment {
            payment_id: Identifier::fresh(),
            purchaser_id,
            seller_id,
            payment_type,
            description,
            amount,
            currency,
            status,
            created_at: now,
            updated_at: now,
        }
    }
}

} // verus!

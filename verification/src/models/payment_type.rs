//! The ways to pay: card, cash, bank transfer and the like.
use vstd::prelude::*;
use crate::identity::Identifier;

verus! {

#[derive(Clone, Debug, PartialEq, Eq)]
pub struct PaymentType {
    pub payment_type_id: Identifier,
    pub payment_type: String,
}

impl PaymentType {
    /// A payment type with a new identifier.
    pub fn new(payment_type: String) -> (kind: PaymentType)
        ensures
            kind == (PaymentType { payment_type_id: kind.payment_type_id, payment_type }),
    {
        PaymentType { payment_type_id: Identifier::fresh(), payment_type }
    }
}

} // verus!

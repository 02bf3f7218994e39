use vstd::prelude::*;

use crate::entities::models::{payment_attempt::PaymentAttempt, status::PaymentIntentStatus};
use crate::value_objects::{
    amount::Amount, ids::payment_intent_id::PaymentIntentId, payer::payer::Payer,
};

verus! {

/// A payer's intention to pay an amount, with the attempts made to pay it.
#[allow(dead_code)]
pub struct PaymentIntent {
    id: PaymentIntentId,
    amount: Amount,
    payer: Payer,
    status: PaymentIntentStatus,
    attempts: Vec<PaymentAttempt>,
}

impl PaymentIntent {
    pub closed spec fn spec_status(&self) -> PaymentIntentStatus {
        self.status
    }

    pub closed spec fn spec_id(&self) -> PaymentIntentId {
        self.id
    }

    pub closed spec fn spec_attempts(&self) -> Seq<PaymentAttempt> {
        self.attempts@
    }

    pub fn new(
        id: PaymentIntentId,
        amount: Amount,
        payer: Payer,
        status: PaymentIntentStatus,
        attempts: Vec<PaymentAttempt>,
    ) -> (r: Self)
        ensures
            r.spec_id() == id,
            r.spec_status() == status,
            r.spec_attempts() == attempts@,
    {
        PaymentIntent { id, amount, payer, status, attempts }
    }

    pub fn status(&self) -> (r: PaymentIntentStatus)
        ensures
            r == self.spec_status(),
    {
        self.status
    }
}

} // verus!

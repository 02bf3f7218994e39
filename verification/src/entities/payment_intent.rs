use vstd::prelude::*;

use crate::entities::payment_attempt::PaymentAttempt;
use crate::value_objects::{
    amount::Amount, ids::payment_intent_id::PaymentIntentId, intent_status::IntentStatus,
    payer::payer::Payer,
};

verus! {

/// A payer's intention to pay an amount, with the attempts made to pay it.
#[allow(dead_code)]
pub struct PaymentIntent {
    id: PaymentIntentId,
    amount: Amount,
    payer: Payer,
    status: IntentStatus,
    attempts: Vec<PaymentAttempt>,
}

} // verus!

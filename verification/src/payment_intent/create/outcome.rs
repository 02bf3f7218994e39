use vstd::prelude::*;

use crate::entities::models::status::PaymentIntentStatus;
use crate::value_objects::{
    ids::payment_intent_id::PaymentIntentId,
    payment_method::outcome::payment_method_outcome::PaymentMethodOutcome,
};

verus! {

/// What creating a payment intent produced.
#[allow(dead_code)]
pub struct Outcome {
    id: PaymentIntentId,
    status: PaymentIntentStatus,
    payment_method: PaymentMethodOutcome,
}

} // verus!

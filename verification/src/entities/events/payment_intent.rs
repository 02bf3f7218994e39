use vstd::prelude::*;

use crate::entities::events::payment_attempt::PaymentAttemptEvent;

verus! {

/// What can happen to a payment intent.
pub enum PaymentIntentEvent {
    CancellationRequested,
    PaymentAttemptEvent(PaymentAttemptEvent),
}

} // verus!

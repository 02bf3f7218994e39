use vstd::prelude::*;

use crate::entities::models::gateway_attempt::gateway_attempt::GatewayAttempt;
use crate::value_objects::ids::gateway_attempt_id::GatewayAttemptId;

verus! {

/// What can happen to a payment attempt: one of its gateway attempts is to
/// be cancelled, or a new gateway attempt is to be added.
pub enum PaymentAttemptEvent {
    CancellationRequested(GatewayAttemptId),
    AttemptRequested(GatewayAttempt),
}

} // verus!

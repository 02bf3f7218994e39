use vstd::prelude::*;

use crate::entities::gateway_attempt::{lifecycle::AttemptLifecycle, GatewayAttempt};
use crate::value_objects::{
    ids::{payment_attempt_id::PaymentAttemptId, payment_intent_id::PaymentIntentId},
    intent_status::IntentStatus,
    payment_method::instruction::payment_method::PaymentMethod,
};

verus! {

/// The overall state of a payment whose attempts are `attempts`: paid as
/// soon as one succeeded, else pending while one runs, else failed.
pub open spec fn charge_status_of<T: AttemptLifecycle>(attempts: Seq<T>) -> IntentStatus {
    if exists|i: int| 0 <= i < attempts.len() && #[trigger] attempts[i].spec_is_success() {
        IntentStatus::Paid
    } else if exists|i: int| 0 <= i < attempts.len() && #[trigger] attempts[i].spec_is_running() {
        IntentStatus::Pending
    } else {
        IntentStatus::Failed
    }
}

/// One payment attempt: a way of paying and the attempts made at gateways.
#[allow(dead_code)]
pub struct PaymentAttempt {
    id: PaymentAttemptId,
    payment_intent_id: PaymentIntentId,
    payment_method: PaymentMethod,
    status: IntentStatus,
    gateway_attempts: Vec<GatewayAttempt>,
}

impl PaymentAttempt {
    pub closed spec fn spec_status(&self) -> IntentStatus {
        self.status
    }

    pub closed spec fn spec_gateway_attempts(&self) -> Seq<GatewayAttempt> {
        self.gateway_attempts@
    }

    fn recalculate_status<T: AttemptLifecycle>(attempts: &[T]) -> (r: IntentStatus)
        ensures
            r == charge_status_of(attempts@),
    {
        let mut has_running = false;
        let mut k: usize = 0;
        while k < attempts.len()
            invariant
                k <= attempts@.len(),
                forall|j: int| 0 <= j < k ==> !#[trigger] attempts@[j].spec_is_success(),
                has_running == exists|j: int| 0 <= j < k && #[trigger] attempts@[j].spec_is_running(),
            decreases attempts@.len() - k,
        {
            if attempts[k].is_success() {
                return IntentStatus::Paid;
            }
            if attempts[k].is_running() {
                has_running = true;
            }
            k = k + 1;
        }
        if !has_running {
            return IntentStatus::Failed;
        }
        IntentStatus::Pending
    }

    /// Recomputes the overall state from the gateway attempts, keeps it and
    /// returns it.
    pub fn charge_status(&mut self) -> (r: &IntentStatus)
        ensures
            *r == charge_status_of(old(self).spec_gateway_attempts()),
            final(self).spec_status() == *r,
            final(self).spec_gateway_attempts() == old(self).spec_gateway_attempts(),
    {
        let status_now = Self::recalculate_status(self.gateway_attempts.as_slice());
        self.status = status_now;
        &self.status
    }
}

} // verus!

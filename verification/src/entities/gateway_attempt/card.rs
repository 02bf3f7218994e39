use vstd::prelude::*;

use crate::entities::gateway_attempt::lifecycle::AttemptLifecycle;
use crate::gateway::gateway_name::GatewayName;
use crate::value_objects::ids::{
    gateway_attempt_id::GatewayAttemptId, payment_attempt_id::PaymentAttemptId,
};
use crate::value_objects::payment_method::outcome::card::CardData;

verus! {

/// An attempt to collect a payment through a card charge at one gateway.
pub struct CardGatewayAttempt {
    pub id: GatewayAttemptId,
    pub payment_attempt_id: PaymentAttemptId,
    pub gateway_name: GatewayName,
    pub outcome: CardData,
    pub status: CardAttemptStatus,
}

/// Where a card charge stands at its gateway.
pub enum CardAttemptStatus {
    Pending,
    Processing,
    Paid,
    Failed,
    Cancelled,
    Rejected,
}

impl CardGatewayAttempt {
    fn is_running(&self) -> (r: bool)
        ensures
            r == matches!(self.status, CardAttemptStatus::Processing | CardAttemptStatus::Pending),
    {
        matches!(self.status, CardAttemptStatus::Processing | CardAttemptStatus::Pending)
    }

    fn is_success(&self) -> (r: bool)
        ensures
            r == matches!(self.status, CardAttemptStatus::Paid),
    {
        matches!(self.status, CardAttemptStatus::Paid)
    }

    fn is_failure(&self) -> (r: bool)
        ensures
            r == matches!(self.status, CardAttemptStatus::Failed | CardAttemptStatus::Cancelled | CardAttemptStatus::Rejected),
    {
        matches!(self.status, CardAttemptStatus::Failed | CardAttemptStatus::Cancelled | CardAttemptStatus::Rejected)
    }
}

impl AttemptLifecycle for CardGatewayAttempt {
    open spec fn spec_is_running(&self) -> bool {
        matches!(self.status, CardAttemptStatus::Processing | CardAttemptStatus::Pending)
    }

    open spec fn spec_is_success(&self) -> bool {
        matches!(self.status, CardAttemptStatus::Paid)
    }

    open spec fn spec_is_failure(&self) -> bool {
        matches!(self.status, CardAttemptStatus::Failed | CardAttemptStatus::Cancelled | CardAttemptStatus::Rejected)
    }

    fn is_running(&self) -> (r: bool) {
        self.is_running()
    }

    fn is_success(&self) -> (r: bool) {
        self.is_success()
    }

    fn is_failure(&self) -> (r: bool) {
        self.is_failure()
    }
}

} // verus!

use vstd::prelude::*;

use crate::entities::gateway_attempt::lifecycle::AttemptLifecycle;
use crate::gateway::gateway_name::GatewayName;
use crate::value_objects::ids::{
    gateway_attempt_id::GatewayAttemptId, payment_attempt_id::PaymentAttemptId,
};
use crate::value_objects::payment_method::outcome::pix::PixData;

verus! {

/// An attempt to collect a payment through a Pix charge at one gateway.
pub struct PixGatewayAttempt {
    pub id: GatewayAttemptId,
    pub payment_attempt_id: PaymentAttemptId,
    pub gateway_name: GatewayName,
    pub outcome: PixData,
    pub status: PixAttemptStatus,
}

/// Where a Pix charge stands at its gateway.
pub enum PixAttemptStatus {
    Processing,
    Pending,
    /// Arrived first: confirms the payment.
    RacingWinner,
    /// Arrived second: its cancellation is to be requested.
    RacingLoser,
    Failed,
    Cancelled,
}

impl PixGatewayAttempt {
    fn is_running(&self) -> (r: bool)
        ensures
            r == matches!(self.status, PixAttemptStatus::Processing | PixAttemptStatus::Pending),
    {
        matches!(self.status, PixAttemptStatus::Processing | PixAttemptStatus::Pending)
    }

    fn is_success(&self) -> (r: bool)
        ensures
            r == matches!(self.status, PixAttemptStatus::RacingWinner),
    {
        matches!(self.status, PixAttemptStatus::RacingWinner)
    }

    fn is_failure(&self) -> (r: bool)
        ensures
            r == matches!(self.status, PixAttemptStatus::Failed | PixAttemptStatus::Cancelled),
    {
        matches!(self.status, PixAttemptStatus::Failed | PixAttemptStatus::Cancelled)
    }
}

impl AttemptLifecycle for PixGatewayAttempt {
    open spec fn spec_is_running(&self) -> bool {
        matches!(self.status, PixAttemptStatus::Processing | PixAttemptStatus::Pending)
    }

    open spec fn spec_is_success(&self) -> bool {
        matches!(self.status, PixAttemptStatus::RacingWinner)
    }

    open spec fn spec_is_failure(&self) -> bool {
        matches!(self.status, PixAttemptStatus::Failed | PixAttemptStatus::Cancelled)
    }

    fn is_running(&self) -> (r: bool) {
        self.is_running()
    }

    fn is_success(&self) -> (r: bool) {
        self.is_success()
    }

    fn is_failure(&self) -> (r: bool) {
        self.is_failure()
    }
}

} // verus!

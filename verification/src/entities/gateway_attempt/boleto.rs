use vstd::prelude::*;

use crate::entities::gateway_attempt::lifecycle::AttemptLifecycle;
use crate::gateway::gateway_name::GatewayName;
use crate::value_objects::ids::{
    gateway_attempt_id::GatewayAttemptId, payment_attempt_id::PaymentAttemptId,
};
use crate::value_objects::payment_method::outcome::boleto::BoletoData;

verus! {

/// An attempt to collect a payment through a boleto at one gateway.
pub struct BoletoGatewayAttempt {
    pub id: GatewayAttemptId,
    pub payment_attempt_id: PaymentAttemptId,
    pub gateway_name: GatewayName,
    pub outcome: BoletoData,
    pub status: BoletoAttemptStatus,
}

/// Where a boleto stands at its gateway.
pub enum BoletoAttemptStatus {
    Pending,
    Paid,
    Expired,
    Cancelled,
}

impl BoletoGatewayAttempt {
    fn is_running(&self) -> (r: bool)
        ensures
            r == matches!(self.status, BoletoAttemptStatus::Pending),
    {
        matches!(self.status, BoletoAttemptStatus::Pending)
    }

    fn is_success(&self) -> (r: bool)
        ensures
            r == matches!(self.status, BoletoAttemptStatus::Paid),
    {
        matches!(self.status, BoletoAttemptStatus::Paid)
    }

    fn is_failure(&self) -> (r: bool)
        ensures
            r == matches!(self.status, BoletoAttemptStatus::Expired | BoletoAttemptStatus::Cancelled),
    {
        matches!(self.status, BoletoAttemptStatus::Expired | BoletoAttemptStatus::Cancelled)
    }
}

impl AttemptLifecycle for BoletoGatewayAttempt {
    open spec fn spec_is_running(&self) -> bool {
        matches!(self.status, BoletoAttemptStatus::Pending)
    }

    open spec fn spec_is_success(&self) -> bool {
        matches!(self.status, BoletoAttemptStatus::Paid)
    }

    open spec fn spec_is_failure(&self) -> bool {
        matches!(self.status, BoletoAttemptStatus::Expired | BoletoAttemptStatus::Cancelled)
    }

    fn is_running(&self) -> (r: bool) {
        self.is_running()
    }

    fn is_success(&self) -> (r: bool) {
        self.is_success()
    }

    fn is_failure(&self) -> (r: bool) {
        self.is_failure()
    }
}

} // verus!

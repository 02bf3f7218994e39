use vstd::prelude::*;

use crate::entities::contracts::{GatewayAttemptActions, GatewayAttemptState, GatewayEventHandler};
use crate::entities::events::{GatewayEvent, BoletoGatewayEvent};
use crate::entities::models::gateway_attempt::conflict::{
    EventOutcome, GatewayAttemptConflict, GatewayAttemptEventResult,
};
use crate::gateway::gateway_name::GatewayName;
use crate::value_objects::ids::{
    gateway_attempt_id::GatewayAttemptId, payment_attempt_id::PaymentAttemptId,
};
use crate::value_objects::payment_method::outcome::boleto::BoletoData;

verus! {

/// Where a boleto stands at its gateway.
#[derive(Debug, Clone, Copy, PartialEq, Eq, Structural)]
pub enum BoletoAttemptStatus {
    Requested,
    Pending,
    CancellationRequested,
    Paid,
    Cancelled,
    Expired,
    Failed,
}

impl BoletoAttemptStatus {
    /// A cancellation may be requested only of a pending attempt.
    pub open spec fn cancellable(self) -> bool {
        self == BoletoAttemptStatus::Pending
    }

    /// The states in which no other attempt may be started for the same
    /// payment.
    pub open spec fn blocking(self) -> bool {
        matches!(self, BoletoAttemptStatus::Pending | BoletoAttemptStatus::Requested | BoletoAttemptStatus::CancellationRequested | BoletoAttemptStatus::Paid)
    }

    /// The states from which no event leads anywhere.
    pub open spec fn finished(self) -> bool {
        matches!(self, BoletoAttemptStatus::Paid | BoletoAttemptStatus::Failed | BoletoAttemptStatus::Cancelled | BoletoAttemptStatus::Expired)
    }

    /// The state that `event` leads to, or `None` where the event conflicts
    /// with this state.
    pub open spec fn after(self, event: BoletoGatewayEvent) -> Option<BoletoAttemptStatus> {
        match event {
            BoletoGatewayEvent::Paid => match self {
                BoletoAttemptStatus::Pending | BoletoAttemptStatus::Requested | BoletoAttemptStatus::CancellationRequested => Some(BoletoAttemptStatus::Paid),
                _ => None,
            },
            BoletoGatewayEvent::Cancelled => match self {
                BoletoAttemptStatus::Pending | BoletoAttemptStatus::Requested | BoletoAttemptStatus::CancellationRequested => Some(BoletoAttemptStatus::Cancelled),
                _ => None,
            },
            BoletoGatewayEvent::Expired => match self {
                BoletoAttemptStatus::Pending | BoletoAttemptStatus::Requested | BoletoAttemptStatus::CancellationRequested => Some(BoletoAttemptStatus::Expired),
                _ => None,
            },
            BoletoGatewayEvent::Failed => match self {
                BoletoAttemptStatus::Pending | BoletoAttemptStatus::Requested | BoletoAttemptStatus::CancellationRequested => Some(BoletoAttemptStatus::Failed),
                _ => None,
            },
        }
    }
}

/// An attempt to collect a payment through a boleto at one gateway.
pub struct BoletoGatewayAttempt {
    pub id: GatewayAttemptId,
    pub payment_attempt_id: PaymentAttemptId,
    pub gateway_name: GatewayName,
    pub outcome: BoletoData,
    pub status: BoletoAttemptStatus,
}

impl BoletoGatewayAttempt {
    /// A new attempt, in state `Requested`.
    pub fn new(
        id: GatewayAttemptId,
        payment_attempt_id: PaymentAttemptId,
        gateway_name: GatewayName,
        outcome: BoletoData,
    ) -> (r: Self)
        ensures
            r.id == id,
            r.payment_attempt_id == payment_attempt_id,
            r.gateway_name == gateway_name,
            r.outcome == outcome,
            r.status == BoletoAttemptStatus::Requested,
    {
        let status = BoletoAttemptStatus::Requested;
        BoletoGatewayAttempt { id, payment_attempt_id, gateway_name, outcome, status }
    }

    pub fn status(&self) -> (r: BoletoAttemptStatus)
        ensures
            r == self.status,
    {
        self.status
    }

    pub fn id(&self) -> (r: GatewayAttemptId)
        ensures
            r == self.id,
    {
        self.id
    }

    /// This attempt with its state replaced by `status`.
    pub open spec fn with_status(self, status: BoletoAttemptStatus) -> Self {
        BoletoGatewayAttempt { status, ..self }
    }

    /// The state that `event` leads to, or the conflict it raises.
    fn next_state(&self, event: BoletoGatewayEvent) -> (r: Result<BoletoAttemptStatus, GatewayAttemptConflict>)
        ensures
            match self.status.after(event) {
                Some(s) => r == Ok::<BoletoAttemptStatus, GatewayAttemptConflict>(s),
                None => r matches Err(c) && c@ == (self.id, GatewayEvent::Boleto(event)),
            },
    {
        match (self.status, &event) {
            (BoletoAttemptStatus::Pending | BoletoAttemptStatus::Requested | BoletoAttemptStatus::CancellationRequested, BoletoGatewayEvent::Paid) => Ok(BoletoAttemptStatus::Paid),
            (BoletoAttemptStatus::Pending | BoletoAttemptStatus::Requested | BoletoAttemptStatus::CancellationRequested, BoletoGatewayEvent::Cancelled) => Ok(BoletoAttemptStatus::Cancelled),
            (BoletoAttemptStatus::Pending | BoletoAttemptStatus::Requested | BoletoAttemptStatus::CancellationRequested, BoletoGatewayEvent::Expired) => Ok(BoletoAttemptStatus::Expired),
            (BoletoAttemptStatus::Pending | BoletoAttemptStatus::Requested | BoletoAttemptStatus::CancellationRequested, BoletoGatewayEvent::Failed) => Ok(BoletoAttemptStatus::Failed),
            _ => Err(GatewayAttemptConflict::new(self.id, GatewayEvent::Boleto(event))),
        }
    }
}

impl GatewayAttemptActions for BoletoGatewayAttempt {
    open spec fn spec_can_be_cancelled(&self) -> bool {
        self.status.cancellable()
    }

    open spec fn spec_blocks_payment_attempt(&self) -> bool {
        self.status.blocking()
    }

    open spec fn spec_cancellation_requested(&self) -> Self {
        self.with_status(BoletoAttemptStatus::CancellationRequested)
    }

    fn can_be_cancelled(&self) -> (r: bool) {
        matches!(self.status, BoletoAttemptStatus::Pending)
    }

    fn blocks_payment_attempt(&self) -> (r: bool) {
        matches!(self.status, BoletoAttemptStatus::Pending | BoletoAttemptStatus::Requested | BoletoAttemptStatus::CancellationRequested | BoletoAttemptStatus::Paid)
    }

    fn request_cancellation(&mut self) -> (r: bool) {
        if !self.can_be_cancelled() {
            return false;
        }
        self.status = BoletoAttemptStatus::CancellationRequested;
        true
    }
}

impl GatewayAttemptState for BoletoGatewayAttempt {
    open spec fn spec_is_paid(&self) -> bool {
        self.status == BoletoAttemptStatus::Paid
    }

    open spec fn spec_is_failed(&self) -> bool {
        self.status == BoletoAttemptStatus::Failed
    }

    open spec fn spec_is_cancelled(&self) -> bool {
        self.status == BoletoAttemptStatus::Cancelled
    }

    open spec fn spec_is_finished(&self) -> bool {
        self.status.finished()
    }

    fn is_paid(&self) -> (r: bool) {
        matches!(self.status, BoletoAttemptStatus::Paid)
    }

    fn is_failed(&self) -> (r: bool) {
        matches!(self.status, BoletoAttemptStatus::Failed)
    }

    fn is_cancelled(&self) -> (r: bool) {
        matches!(self.status, BoletoAttemptStatus::Cancelled)
    }

    fn is_finished(&self) -> (r: bool) {
        matches!(self.status, BoletoAttemptStatus::Paid | BoletoAttemptStatus::Failed | BoletoAttemptStatus::Cancelled | BoletoAttemptStatus::Expired)
    }
}

impl GatewayEventHandler for BoletoGatewayAttempt {
    type Event = BoletoGatewayEvent;

    open spec fn spec_apply(&self, event: BoletoGatewayEvent) -> (Self, EventOutcome) {
        match self.status.after(event) {
            Some(s) => (self.with_status(s), EventOutcome::Applied),
            None => (*self, EventOutcome::Conflict(self.id, GatewayEvent::Boleto(event))),
        }
    }

    fn apply_event(&mut self, event: BoletoGatewayEvent) -> (r: GatewayAttemptEventResult) {
        match self.next_state(event) {
            Ok(status) => {
                self.status = status;
                GatewayAttemptEventResult::Applied
            },
            Err(conflict) => GatewayAttemptEventResult::Conflict(conflict),
        }
    }
}

} // verus!

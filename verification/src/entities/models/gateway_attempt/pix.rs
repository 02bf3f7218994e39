use vstd::prelude::*;

use crate::entities::contracts::{GatewayAttemptActions, GatewayAttemptState, GatewayEventHandler};
use crate::entities::events::{GatewayEvent, PixGatewayEvent};
use crate::entities::models::gateway_attempt::conflict::{
    EventOutcome, GatewayAttemptConflict, GatewayAttemptEventResult,
};
use crate::gateway::gateway_name::GatewayName;
use crate::value_objects::ids::{
    gateway_attempt_id::GatewayAttemptId, payment_attempt_id::PaymentAttemptId,
};
use crate::value_objects::payment_method::outcome::pix::PixData;

verus! {

/// Where a Pix charge stands at its gateway.
#[derive(Debug, Clone, Copy, PartialEq, Eq, Structural)]
pub enum PixAttemptStatus {
    Requested,
    Pending,
    CancellationRequested,
    Paid,
    Cancelled,
    Expired,
    Failed,
}

impl PixAttemptStatus {
    /// A cancellation may be requested only of a pending attempt.
    pub open spec fn cancellable(self) -> bool {
        self == PixAttemptStatus::Pending
    }

    /// The states in which no other attempt may be started for the same
    /// payment.
    pub open spec fn blocking(self) -> bool {
        matches!(self, PixAttemptStatus::Paid)
    }

    /// The states from which no event leads anywhere.
    pub open spec fn finished(self) -> bool {
        matches!(self, PixAttemptStatus::Paid | PixAttemptStatus::Failed | PixAttemptStatus::Cancelled | PixAttemptStatus::Expired)
    }

    /// The state that `event` leads to, or `None` where the event conflicts
    /// with this state.
    pub open spec fn after(self, event: PixGatewayEvent) -> Option<PixAttemptStatus> {
        match event {
            PixGatewayEvent::Paid => match self {
                PixAttemptStatus::Pending | PixAttemptStatus::Requested | PixAttemptStatus::CancellationRequested => Some(PixAttemptStatus::Paid),
                _ => None,
            },
            PixGatewayEvent::Failed => match self {
                PixAttemptStatus::Pending | PixAttemptStatus::Requested => Some(PixAttemptStatus::Failed),
                _ => None,
            },
            PixGatewayEvent::Cancelled => match self {
                PixAttemptStatus::CancellationRequested | PixAttemptStatus::Pending | PixAttemptStatus::Requested => Some(PixAttemptStatus::Cancelled),
                _ => None,
            },
            PixGatewayEvent::Expired => match self {
                PixAttemptStatus::Pending | PixAttemptStatus::Requested | PixAttemptStatus::CancellationRequested => Some(PixAttemptStatus::Expired),
                _ => None,
            },
        }
    }
}

/// An attempt to collect a payment through a Pix charge at one gateway.
pub struct PixGatewayAttempt {
    pub id: GatewayAttemptId,
    pub payment_attempt_id: PaymentAttemptId,
    pub gateway_name: GatewayName,
    pub outcome: PixData,
    pub status: PixAttemptStatus,
}

impl PixGatewayAttempt {
    /// A new attempt, in state `Requested`.
    pub fn new(
        id: GatewayAttemptId,
        payment_attempt_id: PaymentAttemptId,
        gateway_name: GatewayName,
        outcome: PixData,
    ) -> (r: Self)
        ensures
            r.id == id,
            r.payment_attempt_id == payment_attempt_id,
            r.gateway_name == gateway_name,
            r.outcome == outcome,
            r.status == PixAttemptStatus::Requested,
    {
        let status = PixAttemptStatus::Requested;
        PixGatewayAttempt { id, payment_attempt_id, gateway_name, outcome, status }
    }

    pub fn status(&self) -> (r: PixAttemptStatus)
        ensures
            r == self.status,
    {
        self.status
    }

    pub fn id(&self) -> (r: GatewayAttemptId)
        ensures
            r == self.id,
    {
        self.id
    }

    /// This attempt with its state replaced by `status`.
    pub open spec fn with_status(self, status: PixAttemptStatus) -> Self {
        PixGatewayAttempt { status, ..self }
    }

    /// The state that `event` leads to, or the conflict it raises.
    fn next_state(&self, event: PixGatewayEvent) -> (r: Result<PixAttemptStatus, GatewayAttemptConflict>)
        ensures
            match self.status.after(event) {
                Some(s) => r == Ok::<PixAttemptStatus, GatewayAttemptConflict>(s),
                None => r matches Err(c) && c@ == (self.id, GatewayEvent::Pix(event)),
            },
    {
        match (self.status, &event) {
            (PixAttemptStatus::Pending | PixAttemptStatus::Requested | PixAttemptStatus::CancellationRequested, PixGatewayEvent::Paid) => Ok(PixAttemptStatus::Paid),
            (PixAttemptStatus::Pending | PixAttemptStatus::Requested, PixGatewayEvent::Failed) => Ok(PixAttemptStatus::Failed),
            (PixAttemptStatus::CancellationRequested | PixAttemptStatus::Pending | PixAttemptStatus::Requested, PixGatewayEvent::Cancelled) => Ok(PixAttemptStatus::Cancelled),
            (PixAttemptStatus::Pending | PixAttemptStatus::Requested | PixAttemptStatus::CancellationRequested, PixGatewayEvent::Expired) => Ok(PixAttemptStatus::Expired),
            _ => Err(GatewayAttemptConflict::new(self.id, GatewayEvent::Pix(event))),
        }
    }
}

impl GatewayAttemptActions for PixGatewayAttempt {
    open spec fn spec_can_be_cancelled(&self) -> bool {
        self.status.cancellable()
    }

    open spec fn spec_blocks_payment_attempt(&self) -> bool {
        self.status.blocking()
    }

    open spec fn spec_cancellation_requested(&self) -> Self {
        self.with_status(PixAttemptStatus::CancellationRequested)
    }

    fn can_be_cancelled(&self) -> (r: bool) {
        matches!(self.status, PixAttemptStatus::Pending)
    }

    fn blocks_payment_attempt(&self) -> (r: bool) {
        matches!(self.status, PixAttemptStatus::Paid)
    }

    fn request_cancellation(&mut self) -> (r: bool) {
        if !self.can_be_cancelled() {
            return false;
        }
        self.status = PixAttemptStatus::CancellationRequested;
        true
    }
}

impl GatewayAttemptState for PixGatewayAttempt {
    open spec fn spec_is_paid(&self) -> bool {
        self.status == PixAttemptStatus::Paid
    }

    open spec fn spec_is_failed(&self) -> bool {
        self.status == PixAttemptStatus::Failed
    }

    open spec fn spec_is_cancelled(&self) -> bool {
        self.status == PixAttemptStatus::Cancelled
    }

    open spec fn spec_is_finished(&self) -> bool {
        self.status.finished()
    }

    fn is_paid(&self) -> (r: bool) {
        matches!(self.status, PixAttemptStatus::Paid)
    }

    fn is_failed(&self) -> (r: bool) {
        matches!(self.status, PixAttemptStatus::Failed)
    }

    fn is_cancelled(&self) -> (r: bool) {
        matches!(self.status, PixAttemptStatus::Cancelled)
    }

    fn is_finished(&self) -> (r: bool) {
        matches!(self.status, PixAttemptStatus::Paid | PixAttemptStatus::Failed | PixAttemptStatus::Cancelled | PixAttemptStatus::Expired)
    }
}

impl GatewayEventHandler for PixGatewayAttempt {
    type Event = PixGatewayEvent;

    open spec fn spec_apply(&self, event: PixGatewayEvent) -> (Self, EventOutcome) {
        match self.status.after(event) {
            Some(s) => (self.with_status(s), EventOutcome::Applied),
            None => (*self, EventOutcome::Conflict(self.id, GatewayEvent::Pix(event))),
        }
    }

    fn apply_event(&mut self, event: PixGatewayEvent) -> (r: GatewayAttemptEventResult) {
        match self.next_state(event) {
            Ok(status) => {
                self.status = status;
                GatewayAttemptEventResult::Applied
            },
            Err(conflict) => GatewayAttemptEventResult::Conflict(conflict),
        }
    }
}

} // verus!

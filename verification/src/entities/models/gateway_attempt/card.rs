use vstd::prelude::*;

use crate::entities::contracts::{GatewayAttemptActions, GatewayAttemptState, GatewayEventHandler};
use crate::entities::events::{GatewayEvent, CardGatewayEvent};
use crate::entities::models::gateway_attempt::conflict::{
    EventOutcome, GatewayAttemptConflict, GatewayAttemptEventResult,
};
use crate::gateway::gateway_name::GatewayName;
use crate::value_objects::ids::{
    gateway_attempt_id::GatewayAttemptId, payment_attempt_id::PaymentAttemptId,
};
use crate::value_objects::payment_method::outcome::card::CardData;

verus! {

/// Where a card charge stands at its gateway.
#[derive(Debug, Clone, Copy, PartialEq, Eq, Structural)]
pub enum CardAttemptStatus {
    Requested,
    Pending,
    CancellationRequested,
    Paid,
    Rejected,
    Failed,
    Cancelled,
}

impl CardAttemptStatus {
    /// A cancellation may be requested only of a pending attempt.
    pub open spec fn cancellable(self) -> bool {
        self == CardAttemptStatus::Pending
    }

    /// The states in which no other attempt may be started for the same
    /// payment.
    pub open spec fn blocking(self) -> bool {
        matches!(self, CardAttemptStatus::Paid | CardAttemptStatus::Pending | CardAttemptStatus::Requested | CardAttemptStatus::CancellationRequested)
    }

    /// The states from which no event leads anywhere.
    pub open spec fn finished(self) -> bool {
        matches!(self, CardAttemptStatus::Paid | CardAttemptStatus::Cancelled | CardAttemptStatus::Failed | CardAttemptStatus::Rejected)
    }

    /// The state that `event` leads to, or `None` where the event conflicts
    /// with this state.
    pub open spec fn after(self, event: CardGatewayEvent) -> Option<CardAttemptStatus> {
        match event {
            CardGatewayEvent::Paid => match self {
                CardAttemptStatus::Pending | CardAttemptStatus::Requested | CardAttemptStatus::CancellationRequested => Some(CardAttemptStatus::Paid),
                _ => None,
            },
            CardGatewayEvent::Cancelled => match self {
                CardAttemptStatus::Pending | CardAttemptStatus::Requested | CardAttemptStatus::CancellationRequested => Some(CardAttemptStatus::Cancelled),
                _ => None,
            },
            CardGatewayEvent::Failed => match self {
                CardAttemptStatus::Pending | CardAttemptStatus::Requested | CardAttemptStatus::CancellationRequested => Some(CardAttemptStatus::Failed),
                _ => None,
            },
            CardGatewayEvent::Rejected => match self {
                CardAttemptStatus::Pending | CardAttemptStatus::Requested | CardAttemptStatus::CancellationRequested => Some(CardAttemptStatus::Rejected),
                _ => None,
            },
        }
    }
}

/// An attempt to collect a payment through a card charge at one gateway.
pub struct CardGatewayAttempt {
    pub id: GatewayAttemptId,
    pub payment_attempt_id: PaymentAttemptId,
    pub gateway_name: GatewayName,
    pub outcome: CardData,
    pub status: CardAttemptStatus,
}

impl CardGatewayAttempt {
    /// A new attempt, in state `Requested`.
    pub fn new(
        id: GatewayAttemptId,
        payment_attempt_id: PaymentAttemptId,
        gateway_name: GatewayName,
        outcome: CardData,
    ) -> (r: Self)
        ensures
            r.id == id,
            r.payment_attempt_id == payment_attempt_id,
            r.gateway_name == gateway_name,
            r.outcome == outcome,
            r.status == CardAttemptStatus::Requested,
    {
        let status = CardAttemptStatus::Requested;
        CardGatewayAttempt { id, payment_attempt_id, gateway_name, outcome, status }
    }

    pub fn status(&self) -> (r: CardAttemptStatus)
        ensures
            r == self.status,
    {
        self.status
    }

    pub fn id(&self) -> (r: GatewayAttemptId)
        ensures
            r == self.id,
    {
        self.id
    }

    /// This attempt with its state replaced by `status`.
    pub open spec fn with_status(self, status: CardAttemptStatus) -> Self {
        CardGatewayAttempt { status, ..self }
    }

    /// The state that `event` leads to, or the conflict it raises.
    fn next_state(&self, event: CardGatewayEvent) -> (r: Result<CardAttemptStatus, GatewayAttemptConflict>)
        ensures
            match self.status.after(event) {
                Some(s) => r == Ok::<CardAttemptStatus, GatewayAttemptConflict>(s),
                None => r matches Err(c) && c@ == (self.id, GatewayEvent::Card(event)),
            },
    {
        match (self.status, &event) {
            (CardAttemptStatus::Pending | CardAttemptStatus::Requested | CardAttemptStatus::CancellationRequested, CardGatewayEvent::Paid) => Ok(CardAttemptStatus::Paid),
            (CardAttemptStatus::Pending | CardAttemptStatus::Requested | CardAttemptStatus::CancellationRequested, CardGatewayEvent::Cancelled) => Ok(CardAttemptStatus::Cancelled),
            (CardAttemptStatus::Pending | CardAttemptStatus::Requested | CardAttemptStatus::CancellationRequested, CardGatewayEvent::Failed) => Ok(CardAttemptStatus::Failed),
            (CardAttemptStatus::Pending | CardAttemptStatus::Requested | CardAttemptStatus::CancellationRequested, CardGatewayEvent::Rejected) => Ok(CardAttemptStatus::Rejected),
            _ => Err(GatewayAttemptConflict::new(self.id, GatewayEvent::Card(event))),
        }
    }
}

impl GatewayAttemptActions for CardGatewayAttempt {
    open spec fn spec_can_be_cancelled(&self) -> bool {
        self.status.cancellable()
    }

    open spec fn spec_blocks_payment_attempt(&self) -> bool {
        self.status.blocking()
    }

    open spec fn spec_cancellation_requested(&self) -> Self {
        self.with_status(CardAttemptStatus::CancellationRequested)
    }

    fn can_be_cancelled(&self) -> (r: bool) {
        matches!(self.status, CardAttemptStatus::Pending)
    }

    fn blocks_payment_attempt(&self) -> (r: bool) {
        matches!(self.status, CardAttemptStatus::Paid | CardAttemptStatus::Pending | CardAttemptStatus::Requested | CardAttemptStatus::CancellationRequested)
    }

    fn request_cancellation(&mut self) -> (r: bool) {
        if !self.can_be_cancelled() {
            return false;
        }
        self.status = CardAttemptStatus::CancellationRequested;
        true
    }
}

impl GatewayAttemptState for CardGatewayAttempt {
    open spec fn spec_is_paid(&self) -> bool {
        self.status == CardAttemptStatus::Paid
    }

    open spec fn spec_is_failed(&self) -> bool {
        self.status == CardAttemptStatus::Failed
    }

    open spec fn spec_is_cancelled(&self) -> bool {
        self.status == CardAttemptStatus::Cancelled
    }

    open spec fn spec_is_finished(&self) -> bool {
        self.status.finished()
    }

    fn is_paid(&self) -> (r: bool) {
        matches!(self.status, CardAttemptStatus::Paid)
    }

    fn is_failed(&self) -> (r: bool) {
        matches!(self.status, CardAttemptStatus::Failed)
    }

    fn is_cancelled(&self) -> (r: bool) {
        matches!(self.status, CardAttemptStatus::Cancelled)
    }

    fn is_finished(&self) -> (r: bool) {
        matches!(self.status, CardAttemptStatus::Paid | CardAttemptStatus::Cancelled | CardAttemptStatus::Failed | CardAttemptStatus::Rejected)
    }
}

impl GatewayEventHandler for CardGatewayAttempt {
    type Event = CardGatewayEvent;

    open spec fn spec_apply(&self, event: CardGatewayEvent) -> (Self, EventOutcome) {
        match self.status.after(event) {
            Some(s) => (self.with_status(s), EventOutcome::Applied),
            None => (*self, EventOutcome::Conflict(self.id, GatewayEvent::Card(event))),
        }
    }

    fn apply_event(&mut self, event: CardGatewayEvent) -> (r: GatewayAttemptEventResult) {
        match self.next_state(event) {
            Ok(status) => {
                self.status = status;
                GatewayAttemptEventResult::Applied
            },
            Err(conflict) => GatewayAttemptEventResult::Conflict(conflict),
        }
    }
}

} // verus!

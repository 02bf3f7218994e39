use vstd::prelude::*;

use crate::entities::contracts::{
    GatewayAttemptActions, GatewayAttemptEventRouter, GatewayAttemptState, GatewayEventHandler,
};
use crate::entities::error::DomainError;
use crate::entities::events::GatewayEvent;
use crate::entities::models::gateway_attempt::{
    boleto::BoletoGatewayAttempt, card::CardGatewayAttempt, conflict::{EventOutcome, GatewayAttemptEventResult},
    pix::PixGatewayAttempt,
};
use crate::value_objects::ids::gateway_attempt_id::GatewayAttemptId;

verus! {

/// An attempt at one gateway, of whichever way of paying.
pub enum GatewayAttempt {
    Pix(PixGatewayAttempt),
    Card(CardGatewayAttempt),
    Boleto(BoletoGatewayAttempt),
}

impl GatewayAttempt {
    /// The identifier of the attempt.
    pub open spec fn spec_id(&self) -> GatewayAttemptId {
        match self {
            GatewayAttempt::Pix(a) => a.id,
            GatewayAttempt::Card(a) => a.id,
            GatewayAttempt::Boleto(a) => a.id,
        }
    }

    pub fn id(&self) -> (r: GatewayAttemptId)
        ensures
            r == self.spec_id(),
    {
        match self {
            GatewayAttempt::Pix(attempt) => attempt.id(),
            GatewayAttempt::Card(attempt) => attempt.id(),
            GatewayAttempt::Boleto(attempt) => attempt.id(),
        }
    }
}

impl GatewayAttemptActions for GatewayAttempt {
    open spec fn spec_can_be_cancelled(&self) -> bool {
        match self {
            GatewayAttempt::Pix(a) => a.spec_can_be_cancelled(),
            GatewayAttempt::Card(a) => a.spec_can_be_cancelled(),
            GatewayAttempt::Boleto(a) => a.spec_can_be_cancelled(),
        }
    }

    open spec fn spec_blocks_payment_attempt(&self) -> bool {
        match self {
            GatewayAttempt::Pix(a) => a.spec_blocks_payment_attempt(),
            GatewayAttempt::Card(a) => a.spec_blocks_payment_attempt(),
            GatewayAttempt::Boleto(a) => a.spec_blocks_payment_attempt(),
        }
    }

    open spec fn spec_cancellation_requested(&self) -> Self {
        match self {
            GatewayAttempt::Pix(a) => GatewayAttempt::Pix(a.spec_cancellation_requested()),
            GatewayAttempt::Card(a) => GatewayAttempt::Card(a.spec_cancellation_requested()),
            GatewayAttempt::Boleto(a) => GatewayAttempt::Boleto(a.spec_cancellation_requested()),
        }
    }

    fn can_be_cancelled(&self) -> (r: bool) {
        match self {
            GatewayAttempt::Pix(x) => x.can_be_cancelled(),
            GatewayAttempt::Card(x) => x.can_be_cancelled(),
            GatewayAttempt::Boleto(x) => x.can_be_cancelled(),
        }
    }

    fn blocks_payment_attempt(&self) -> (r: bool) {
        match self {
            GatewayAttempt::Pix(x) => x.blocks_payment_attempt(),
            GatewayAttempt::Card(x) => x.blocks_payment_attempt(),
            GatewayAttempt::Boleto(x) => x.blocks_payment_attempt(),
        }
    }

    fn request_cancellation(&mut self) -> (r: bool) {
        match self {
            GatewayAttempt::Pix(attempt) => attempt.request_cancellation(),
            GatewayAttempt::Card(attempt) => attempt.request_cancellation(),
            GatewayAttempt::Boleto(attempt) => attempt.request_cancellation(),
        }
    }
}

impl GatewayAttemptState for GatewayAttempt {
    open spec fn spec_is_paid(&self) -> bool {
        match self {
            GatewayAttempt::Pix(a) => a.spec_is_paid(),
            GatewayAttempt::Card(a) => a.spec_is_paid(),
            GatewayAttempt::Boleto(a) => a.spec_is_paid(),
        }
    }

    open spec fn spec_is_failed(&self) -> bool {
        match self {
            GatewayAttempt::Pix(a) => a.spec_is_failed(),
            GatewayAttempt::Card(a) => a.spec_is_failed(),
            GatewayAttempt::Boleto(a) => a.spec_is_failed(),
        }
    }

    open spec fn spec_is_cancelled(&self) -> bool {
        match self {
            GatewayAttempt::Pix(a) => a.spec_is_cancelled(),
            GatewayAttempt::Card(a) => a.spec_is_cancelled(),
            GatewayAttempt::Boleto(a) => a.spec_is_cancelled(),
        }
    }

    open spec fn spec_is_finished(&self) -> bool {
        match self {
            GatewayAttempt::Pix(a) => a.spec_is_finished(),
            GatewayAttempt::Card(a) => a.spec_is_finished(),
            GatewayAttempt::Boleto(a) => a.spec_is_finished(),
        }
    }

    fn is_paid(&self) -> (r: bool) {
        match self {
            GatewayAttempt::Pix(x) => x.is_paid(),
            GatewayAttempt::Card(x) => x.is_paid(),
            GatewayAttempt::Boleto(x) => x.is_paid(),
        }
    }

    fn is_failed(&self) -> (r: bool) {
        match self {
            GatewayAttempt::Pix(x) => x.is_failed(),
            GatewayAttempt::Card(x) => x.is_failed(),
            GatewayAttempt::Boleto(x) => x.is_failed(),
        }
    }

    fn is_cancelled(&self) -> (r: bool) {
        match self {
            GatewayAttempt::Pix(x) => x.is_cancelled(),
            GatewayAttempt::Card(x) => x.is_cancelled(),
            GatewayAttempt::Boleto(x) => x.is_cancelled(),
        }
    }

    fn is_finished(&self) -> (r: bool) {
        match self {
            GatewayAttempt::Pix(x) => x.is_finished(),
            GatewayAttempt::Card(x) => x.is_finished(),
            GatewayAttempt::Boleto(x) => x.is_finished(),
        }
    }
}

impl GatewayAttemptEventRouter for GatewayAttempt {
    open spec fn spec_route(&self, event: GatewayEvent) -> Result<(Self, EventOutcome), DomainError> {
        match (self, event) {
            (GatewayAttempt::Pix(a), GatewayEvent::Pix(e)) => {
                let (next, outcome) = a.spec_apply(e);
                Ok((GatewayAttempt::Pix(next), outcome))
            },
            (GatewayAttempt::Card(a), GatewayEvent::Card(e)) => {
                let (next, outcome) = a.spec_apply(e);
                Ok((GatewayAttempt::Card(next), outcome))
            },
            (GatewayAttempt::Boleto(a), GatewayEvent::Boleto(e)) => {
                let (next, outcome) = a.spec_apply(e);
                Ok((GatewayAttempt::Boleto(next), outcome))
            },
            _ => Err(DomainError::InvalidGatewayEvent),
        }
    }

    fn route_event(&mut self, event: GatewayEvent) -> (r: Result<GatewayAttemptEventResult, DomainError>) {
        match (self, event) {
            (GatewayAttempt::Pix(attempt), GatewayEvent::Pix(event)) => Ok(attempt.apply_event(event)),
            (GatewayAttempt::Card(attempt), GatewayEvent::Card(event)) => Ok(attempt.apply_event(event)),
            (GatewayAttempt::Boleto(attempt), GatewayEvent::Boleto(event)) => Ok(
                attempt.apply_event(event),
            ),
            _ => Err(DomainError::InvalidGatewayEvent),
        }
    }
}

} // verus!

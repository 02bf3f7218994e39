use vstd::prelude::*;

use crate::entities::error::DomainError;
use crate::entities::events::GatewayEvent;
use crate::entities::models::gateway_attempt::conflict::{EventOutcome, GatewayAttemptEventResult};

verus! {

/// Sends a gateway event to the attempt it concerns.
pub trait GatewayAttemptEventRouter: Sized {
    /// The attempt after `event` and the outcome, or the error where the
    /// event cannot concern this attempt.
    spec fn spec_route(&self, event: GatewayEvent) -> Result<(Self, EventOutcome), DomainError>;

    fn route_event(&mut self, event: GatewayEvent) -> (r: Result<
        GatewayAttemptEventResult,
        DomainError,
    >)
        ensures
            match old(self).spec_route(event) {
                Ok((next, outcome)) => *final(self) == next && (r matches Ok(res) && res@ == outcome),
                Err(e) => *final(self) == *old(self) && r == Err::<GatewayAttemptEventResult, _>(e),
            },
    ;
}

/// Applies the events of one kind of gateway to an attempt.
pub trait GatewayEventHandler: Sized {
    type Event;

    /// The attempt after `event`, and whether the event applied or
    /// conflicted with the attempt's state.
    spec fn spec_apply(&self, event: Self::Event) -> (Self, EventOutcome);

    fn apply_event(&mut self, event: Self::Event) -> (r: GatewayAttemptEventResult)
        ensures
            (*final(self), r@) == old(self).spec_apply(event),
    ;
}

} // verus!

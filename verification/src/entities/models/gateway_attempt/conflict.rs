use vstd::prelude::*;

use crate::entities::events::gateway_attempt::GatewayEvent;
use crate::value_objects::ids::gateway_attempt_id::GatewayAttemptId;

verus! {

/// What became of an event sent to a gateway attempt, as contracts speak
/// of it: it applied, or it conflicted with the attempt's state.
pub enum EventOutcome {
    Applied,
    Conflict(GatewayAttemptId, GatewayEvent),
}

/// What became of an event sent to a gateway attempt.
pub enum GatewayAttemptEventResult {
    Applied,
    Conflict(GatewayAttemptConflict),
}

impl View for GatewayAttemptEventResult {
    type V = EventOutcome;

    open spec fn view(&self) -> EventOutcome {
        match self {
            GatewayAttemptEventResult::Applied => EventOutcome::Applied,
            GatewayAttemptEventResult::Conflict(c) => EventOutcome::Conflict(c@.0, c@.1),
        }
    }
}

/// An event that an attempt refused, with the attempt it was meant for.
pub struct GatewayAttemptConflict {
    gateway_attempt_id: GatewayAttemptId,
    event: GatewayEvent,
}

impl View for GatewayAttemptConflict {
    type V = (GatewayAttemptId, GatewayEvent);

    closed spec fn view(&self) -> (GatewayAttemptId, GatewayEvent) {
        (self.gateway_attempt_id, self.event)
    }
}

impl GatewayAttemptConflict {
    pub fn new(gateway_attempt_id: GatewayAttemptId, event: GatewayEvent) -> (r: Self)
        ensures
            r@ == (gateway_attempt_id, event),
    {
        GatewayAttemptConflict { gateway_attempt_id, event }
    }

    pub fn into_parts(self) -> (r: (GatewayAttemptId, GatewayEvent))
        ensures
            r == self@,
    {
        (self.gateway_attempt_id, self.event)
    }
}

} // verus!

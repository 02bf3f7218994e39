//! Laws of the gateway attempts' lifecycle: what every event and every
//! cancellation request keeps, and which states no event leaves.

use vstd::prelude::*;

use crate::entities::contracts::{
    GatewayAttemptActions, GatewayAttemptEventRouter, GatewayAttemptState, GatewayEventHandler,
};
use crate::entities::error::DomainError;
use crate::entities::events::{BoletoGatewayEvent, CardGatewayEvent, GatewayEvent, PixGatewayEvent};
use crate::entities::models::gateway_attempt::{
    boleto::{BoletoAttemptStatus, BoletoGatewayAttempt},
    card::{CardAttemptStatus, CardGatewayAttempt},
    conflict::EventOutcome,
    gateway_attempt::GatewayAttempt,
    pix::{PixAttemptStatus, PixGatewayAttempt},
};

verus! {

/// A finished Pix attempt refuses every event: the event conflicts and the
/// attempt stays as it was.
pub proof fn pix_finished_attempt_refuses_every_event(attempt: PixGatewayAttempt, event: PixGatewayEvent)
    requires
        attempt.spec_is_finished(),
    ensures
        attempt.spec_apply(event) == (attempt, EventOutcome::Conflict(attempt.id, GatewayEvent::Pix(event))),
{
}

/// An event that applies to a Pix attempt leaves it finished.
pub proof fn pix_applied_event_finishes_attempt(attempt: PixGatewayAttempt, event: PixGatewayEvent)
    ensures
        attempt.spec_apply(event).1 == EventOutcome::Applied ==> attempt.spec_apply(event).0.spec_is_finished(),
{
}

/// No two events apply to the same Pix attempt: after one applied, the
/// next conflicts and changes nothing.
pub proof fn pix_no_second_event_applies(attempt: PixGatewayAttempt, first: PixGatewayEvent, second: PixGatewayEvent)
    requires
        attempt.spec_apply(first).1 == EventOutcome::Applied,
    ensures
        ({
            let after = attempt.spec_apply(first).0;
            after.spec_apply(second) == (after, EventOutcome::Conflict(after.id, GatewayEvent::Pix(second)))
        }),
{
}

/// An event changes the state of a Pix attempt and nothing else: its
/// identifier, payment attempt, gateway and outcome stay.
pub proof fn pix_event_changes_only_the_state(attempt: PixGatewayAttempt, event: PixGatewayEvent)
    ensures
        ({
            let next = attempt.spec_apply(event).0;
            &&& next.id == attempt.id
            &&& next.payment_attempt_id == attempt.payment_attempt_id
            &&& next.gateway_name == attempt.gateway_name
            &&& next.outcome == attempt.outcome
        }),
{
}

/// A cancellation requested of a Pix attempt waits for the gateway: the
/// attempt is not finished, a second request is refused, and the gateway's
/// `Cancelled` event then applies.
pub proof fn pix_requested_cancellation_awaits_gateway(attempt: PixGatewayAttempt)
    requires
        attempt.spec_can_be_cancelled(),
    ensures
        ({
            let requested = attempt.spec_cancellation_requested();
            &&& !requested.spec_is_finished()
            &&& !requested.spec_can_be_cancelled()
            &&& requested.spec_apply(PixGatewayEvent::Cancelled) == (
                requested.with_status(PixAttemptStatus::Cancelled),
                EventOutcome::Applied,
            )
        }),
{
}

/// A finished Card attempt refuses every event: the event conflicts and the
/// attempt stays as it was.
pub proof fn card_finished_attempt_refuses_every_event(attempt: CardGatewayAttempt, event: CardGatewayEvent)
    requires
        attempt.spec_is_finished(),
    ensures
        attempt.spec_apply(event) == (attempt, EventOutcome::Conflict(attempt.id, GatewayEvent::Card(event))),
{
}

/// An event that applies to a Card attempt leaves it finished.
pub proof fn card_applied_event_finishes_attempt(attempt: CardGatewayAttempt, event: CardGatewayEvent)
    ensures
        attempt.spec_apply(event).1 == EventOutcome::Applied ==> attempt.spec_apply(event).0.spec_is_finished(),
{
}

/// No two events apply to the same Card attempt: after one applied, the
/// next conflicts and changes nothing.
pub proof fn card_no_second_event_applies(attempt: CardGatewayAttempt, first: CardGatewayEvent, second: CardGatewayEvent)
    requires
        attempt.spec_apply(first).1 == EventOutcome::Applied,
    ensures
        ({
            let after = attempt.spec_apply(first).0;
            after.spec_apply(second) == (after, EventOutcome::Conflict(after.id, GatewayEvent::Card(second)))
        }),
{
}

/// An event changes the state of a Card attempt and nothing else: its
/// identifier, payment attempt, gateway and outcome stay.
pub proof fn card_event_changes_only_the_state(attempt: CardGatewayAttempt, event: CardGatewayEvent)
    ensures
        ({
            let next = attempt.spec_apply(event).0;
            &&& next.id == attempt.id
            &&& next.payment_attempt_id == attempt.payment_attempt_id
            &&& next.gateway_name == attempt.gateway_name
            &&& next.outcome == attempt.outcome
        }),
{
}

/// A cancellation requested of a Card attempt waits for the gateway: the
/// attempt is not finished, a second request is refused, and the gateway's
/// `Cancelled` event then applies.
pub proof fn card_requested_cancellation_awaits_gateway(attempt: CardGatewayAttempt)
    requires
        attempt.spec_can_be_cancelled(),
    ensures
        ({
            let requested = attempt.spec_cancellation_requested();
            &&& !requested.spec_is_finished()
            &&& !requested.spec_can_be_cancelled()
            &&& requested.spec_apply(CardGatewayEvent::Cancelled) == (
                requested.with_status(CardAttemptStatus::Cancelled),
                EventOutcome::Applied,
            )
        }),
{
}

/// A finished Boleto attempt refuses every event: the event conflicts and the
/// attempt stays as it was.
pub proof fn boleto_finished_attempt_refuses_every_event(attempt: BoletoGatewayAttempt, event: BoletoGatewayEvent)
    requires
        attempt.spec_is_finished(),
    ensures
        attempt.spec_apply(event) == (attempt, EventOutcome::Conflict(attempt.id, GatewayEvent::Boleto(event))),
{
}

/// An event that applies to a Boleto attempt leaves it finished.
pub proof fn boleto_applied_event_finishes_attempt(attempt: BoletoGatewayAttempt, event: BoletoGatewayEvent)
    ensures
        attempt.spec_apply(event).1 == EventOutcome::Applied ==> attempt.spec_apply(event).0.spec_is_finished(),
{
}

/// No two events apply to the same Boleto attempt: after one applied, the
/// next conflicts and changes nothing.
pub proof fn boleto_no_second_event_applies(attempt: BoletoGatewayAttempt, first: BoletoGatewayEvent, second: BoletoGatewayEvent)
    requires
        attempt.spec_apply(first).1 == EventOutcome::Applied,
    ensures
        ({
            let after = attempt.spec_apply(first).0;
            after.spec_apply(second) == (after, EventOutcome::Conflict(after.id, GatewayEvent::Boleto(second)))
        }),
{
}

/// An event changes the state of a Boleto attempt and nothing else: its
/// identifier, payment attempt, gateway and outcome stay.
pub proof fn boleto_event_changes_only_the_state(attempt: BoletoGatewayAttempt, event: BoletoGatewayEvent)
    ensures
        ({
            let next = attempt.spec_apply(event).0;
            &&& next.id == attempt.id
            &&& next.payment_attempt_id == attempt.payment_attempt_id
            &&& next.gateway_name == attempt.gateway_name
            &&& next.outcome == attempt.outcome
        }),
{
}

/// A cancellation requested of a Boleto attempt waits for the gateway: the
/// attempt is not finished, a second request is refused, and the gateway's
/// `Cancelled` event then applies.
pub proof fn boleto_requested_cancellation_awaits_gateway(attempt: BoletoGatewayAttempt)
    requires
        attempt.spec_can_be_cancelled(),
    ensures
        ({
            let requested = attempt.spec_cancellation_requested();
            &&& !requested.spec_is_finished()
            &&& !requested.spec_can_be_cancelled()
            &&& requested.spec_apply(BoletoGatewayEvent::Cancelled) == (
                requested.with_status(BoletoAttemptStatus::Cancelled),
                EventOutcome::Applied,
            )
        }),
{
}

/// A gateway event of another kind than the attempt is refused with
/// `InvalidGatewayEvent`, and one of the same kind is handed to the
/// attempt's own handler.
pub proof fn routing_follows_kinds(attempt: GatewayAttempt, event: GatewayEvent)
    ensures
        match (attempt, event) {
            (GatewayAttempt::Pix(a), GatewayEvent::Pix(e)) => attempt.spec_route(event) == Ok::<
                (GatewayAttempt, EventOutcome),
                DomainError,
            >((GatewayAttempt::Pix(a.spec_apply(e).0), a.spec_apply(e).1)),
            (GatewayAttempt::Card(a), GatewayEvent::Card(e)) => attempt.spec_route(event) == Ok::<
                (GatewayAttempt, EventOutcome),
                DomainError,
            >((GatewayAttempt::Card(a.spec_apply(e).0), a.spec_apply(e).1)),
            (GatewayAttempt::Boleto(a), GatewayEvent::Boleto(e)) => attempt.spec_route(event) == Ok::<
                (GatewayAttempt, EventOutcome),
                DomainError,
            >((GatewayAttempt::Boleto(a.spec_apply(e).0), a.spec_apply(e).1)),
            _ => attempt.spec_route(event) == Err::<(GatewayAttempt, EventOutcome), DomainError>(
                DomainError::InvalidGatewayEvent,
            ),
        },
{
}

/// A finished gateway attempt, whatever its kind, is left as it was by
/// every event routed to it: the event is refused as of another kind, or
/// it conflicts.
pub proof fn finished_attempt_stays_put(attempt: GatewayAttempt, event: GatewayEvent)
    requires
        attempt.spec_is_finished(),
    ensures
        match attempt.spec_route(event) {
            Ok((next, outcome)) => next == attempt && outcome != EventOutcome::Applied,
            Err(e) => e == DomainError::InvalidGatewayEvent,
        },
{
}

/// A cancellation request keeps the identifier of the gateway attempt.
pub proof fn cancellation_keeps_identifier(attempt: GatewayAttempt)
    ensures
        attempt.spec_cancellation_requested().spec_id() == attempt.spec_id(),
{
}

/// A paid gateway attempt, whatever its kind, cannot be cancelled and is
/// finished.
pub proof fn paid_attempt_is_final(attempt: GatewayAttempt)
    requires
        attempt.spec_is_paid(),
    ensures
        attempt.spec_is_finished(),
        !attempt.spec_can_be_cancelled(),
{
}


/// The Pix lifecycle, event by event. An event applies exactly to an
/// attempt that is still open (requested, pending, or awaiting a requested
/// cancellation), except that a failure report no longer applies once a
/// cancellation was requested. An applied event moves the attempt to the
/// state that the event names (paid, failed, cancelled or expired); a
/// refused one leaves the attempt as it was.
pub proof fn pix_event_table(attempt: PixGatewayAttempt, event: PixGatewayEvent)
    ensures
        ({
            let next = attempt.spec_apply(event).0;
            let applied = attempt.spec_apply(event).1 == EventOutcome::Applied;
            let open = attempt.status == PixAttemptStatus::Requested || attempt.status
                == PixAttemptStatus::Pending || attempt.status == PixAttemptStatus::CancellationRequested;
            &&& applied <==> (open && !(event == PixGatewayEvent::Failed && attempt.status
                == PixAttemptStatus::CancellationRequested))
            &&& !applied ==> next == attempt
            &&& applied && event == PixGatewayEvent::Paid ==> next.status == PixAttemptStatus::Paid
            &&& applied && event == PixGatewayEvent::Failed ==> next.status == PixAttemptStatus::Failed
            &&& applied && event == PixGatewayEvent::Cancelled ==> next.status
                == PixAttemptStatus::Cancelled
            &&& applied && event == PixGatewayEvent::Expired ==> next.status
                == PixAttemptStatus::Expired
        }),
{
}

/// The card lifecycle, event by event. Every event applies to an attempt
/// that is still open (requested, pending, or awaiting a requested
/// cancellation) and to no other. An applied event moves the attempt to the
/// state that the event names (paid, cancelled, failed or rejected); a
/// refused one leaves the attempt as it was.
pub proof fn card_event_table(attempt: CardGatewayAttempt, event: CardGatewayEvent)
    ensures
        ({
            let next = attempt.spec_apply(event).0;
            let applied = attempt.spec_apply(event).1 == EventOutcome::Applied;
            let open = attempt.status == CardAttemptStatus::Requested || attempt.status
                == CardAttemptStatus::Pending || attempt.status == CardAttemptStatus::CancellationRequested;
            &&& applied <==> open
            &&& !applied ==> next == attempt
            &&& applied && event == CardGatewayEvent::Paid ==> next.status == CardAttemptStatus::Paid
            &&& applied && event == CardGatewayEvent::Cancelled ==> next.status
                == CardAttemptStatus::Cancelled
            &&& applied && event == CardGatewayEvent::Failed ==> next.status == CardAttemptStatus::Failed
            &&& applied && event == CardGatewayEvent::Rejected ==> next.status
                == CardAttemptStatus::Rejected
        }),
{
}

/// The boleto lifecycle, event by event. Every event applies to an attempt
/// that is still open (requested, pending, or awaiting a requested
/// cancellation) and to no other. An applied event moves the attempt to the
/// state that the event names (paid, cancelled, expired or failed); a
/// refused one leaves the attempt as it was.
pub proof fn boleto_event_table(attempt: BoletoGatewayAttempt, event: BoletoGatewayEvent)
    ensures
        ({
            let next = attempt.spec_apply(event).0;
            let applied = attempt.spec_apply(event).1 == EventOutcome::Applied;
            let open = attempt.status == BoletoAttemptStatus::Requested || attempt.status
                == BoletoAttemptStatus::Pending || attempt.status
                == BoletoAttemptStatus::CancellationRequested;
            &&& applied <==> open
            &&& !applied ==> next == attempt
            &&& applied && event == BoletoGatewayEvent::Paid ==> next.status == BoletoAttemptStatus::Paid
            &&& applied && event == BoletoGatewayEvent::Cancelled ==> next.status
                == BoletoAttemptStatus::Cancelled
            &&& applied && event == BoletoGatewayEvent::Expired ==> next.status
                == BoletoAttemptStatus::Expired
            &&& applied && event == BoletoGatewayEvent::Failed ==> next.status
                == BoletoAttemptStatus::Failed
        }),
{
}

/// Which gateway attempts keep a payment from starting another: a Pix
/// attempt only once it is paid (a pending Pix charge does not); a card or
/// boleto attempt while it is open (requested, pending or awaiting a
/// requested cancellation) and once it is paid.
pub proof fn blocking_by_kind(attempt: GatewayAttempt)
    ensures
        attempt matches GatewayAttempt::Pix(a) ==> (attempt.spec_blocks_payment_attempt() <==> a.status
            == PixAttemptStatus::Paid),
        attempt matches GatewayAttempt::Card(a) ==> (attempt.spec_blocks_payment_attempt() <==> (a.status
            == CardAttemptStatus::Paid || a.status == CardAttemptStatus::Pending || a.status
            == CardAttemptStatus::Requested || a.status == CardAttemptStatus::CancellationRequested)),
        attempt matches GatewayAttempt::Boleto(a) ==> (attempt.spec_blocks_payment_attempt() <==> (
        a.status == BoletoAttemptStatus::Paid || a.status == BoletoAttemptStatus::Pending || a.status
            == BoletoAttemptStatus::Requested || a.status == BoletoAttemptStatus::CancellationRequested)),
{
}

} // verus!

//! Laws over whole sequences of gateway events: replayed one after another
//! on an attempt, at most one of them applies, and once the attempt has
//! finished no later event changes it.

use vstd::prelude::*;

use crate::entities::contracts::{GatewayAttemptState, GatewayEventHandler};
use crate::entities::events::{BoletoGatewayEvent, CardGatewayEvent, PixGatewayEvent};
use crate::entities::models::gateway_attempt::{
    boleto::BoletoGatewayAttempt,
    card::CardGatewayAttempt,
    conflict::EventOutcome,
    pix::PixGatewayAttempt,
};

verus! {

/// The attempt after `events` were applied to `attempt` in order, each by
/// `apply_event`.
pub open spec fn replay<A: GatewayEventHandler>(attempt: A, events: Seq<A::Event>) -> A
    decreases events.len(),
{
    if events.len() == 0 {
        attempt
    } else {
        replay(attempt, events.drop_last()).spec_apply(events.last()).0
    }
}

/// How many of `events`, applied to `attempt` in order, came out `Applied`.
pub open spec fn applied_count<A: GatewayEventHandler>(attempt: A, events: Seq<A::Event>) -> nat
    decreases events.len(),
{
    if events.len() == 0 {
        0
    } else {
        applied_count(attempt, events.drop_last()) + if replay(attempt, events.drop_last()).spec_apply(
            events.last(),
        ).1 == EventOutcome::Applied {
            1nat
        } else {
            0nat
        }
    }
}

/// The three facts of a single step that the sequence laws rest on: an
/// applied event finishes the attempt, a refused one leaves it as it was,
/// and a finished attempt applies nothing.
pub open spec fn steps_are_final<A: GatewayEventHandler + GatewayAttemptState>() -> bool {
    &&& forall|x: A, e: A::Event| #[trigger]
        x.spec_apply(e).1 == EventOutcome::Applied ==> x.spec_apply(e).0.spec_is_finished()
    &&& forall|x: A, e: A::Event| #[trigger]
        x.spec_apply(e).1 != EventOutcome::Applied ==> x.spec_apply(e).0 == x
    &&& forall|x: A, e: A::Event| x.spec_is_finished() ==> #[trigger] x.spec_apply(e).1
        != EventOutcome::Applied
}

proof fn lemma_at_most_one<A: GatewayEventHandler + GatewayAttemptState>(
    attempt: A,
    events: Seq<A::Event>,
)
    requires
        steps_are_final::<A>(),
    ensures
        applied_count(attempt, events) <= 1,
        applied_count(attempt, events) == 0 ==> replay(attempt, events) == attempt,
        applied_count(attempt, events) == 1 ==> replay(attempt, events).spec_is_finished(),
        attempt.spec_is_finished() ==> applied_count(attempt, events) == 0,
    decreases events.len(),
{
    if events.len() > 0 {
        lemma_at_most_one(attempt, events.drop_last());
        let before = replay(attempt, events.drop_last());
        let step = before.spec_apply(events.last());
        assert(step.1 == EventOutcome::Applied ==> step.0.spec_is_finished());
        assert(step.1 != EventOutcome::Applied ==> step.0 == before);
        assert(before.spec_is_finished() ==> step.1 != EventOutcome::Applied);
    }
}

proof fn lemma_finished_prefix<A: GatewayEventHandler + GatewayAttemptState>(
    attempt: A,
    events: Seq<A::Event>,
    k: int,
)
    requires
        steps_are_final::<A>(),
        0 <= k <= events.len(),
        replay(attempt, events.take(k)).spec_is_finished(),
    ensures
        replay(attempt, events) == replay(attempt, events.take(k)),
    decreases events.len(),
{
    if k == events.len() {
        assert(events.take(k) =~= events);
    } else {
        assert(events.drop_last().take(k) =~= events.take(k));
        lemma_finished_prefix(attempt, events.drop_last(), k);
        let before = replay(attempt, events.drop_last());
        let step = before.spec_apply(events.last());
        assert(before.spec_is_finished() ==> step.1 != EventOutcome::Applied);
        assert(step.1 != EventOutcome::Applied ==> step.0 == before);
    }
}

proof fn lemma_pix_steps()
    ensures
        steps_are_final::<PixGatewayAttempt>(),
{
}

proof fn lemma_card_steps()
    ensures
        steps_are_final::<CardGatewayAttempt>(),
{
}

proof fn lemma_boleto_steps()
    ensures
        steps_are_final::<BoletoGatewayAttempt>(),
{
}

/// Over any sequence of events applied to a Pix attempt, at most one
/// applies: with none the attempt is as it was, with one it is finished,
/// and a finished attempt applies none.
pub proof fn pix_at_most_one_event_applies(attempt: PixGatewayAttempt, events: Seq<PixGatewayEvent>)
    ensures
        applied_count(attempt, events) <= 1,
        applied_count(attempt, events) == 0 ==> replay(attempt, events) == attempt,
        applied_count(attempt, events) == 1 ==> replay(attempt, events).spec_is_finished(),
        attempt.spec_is_finished() ==> applied_count(attempt, events) == 0 && replay(
            attempt,
            events,
        ) == attempt,
{
    lemma_pix_steps();
    lemma_at_most_one(attempt, events);
}

/// Once a Pix attempt has finished part-way through a sequence of events,
/// the rest of the sequence leaves it as it was.
pub proof fn pix_finished_attempt_never_changes(
    attempt: PixGatewayAttempt,
    events: Seq<PixGatewayEvent>,
    k: int,
)
    requires
        0 <= k <= events.len(),
        replay(attempt, events.take(k)).spec_is_finished(),
    ensures
        replay(attempt, events) == replay(attempt, events.take(k)),
{
    lemma_pix_steps();
    lemma_finished_prefix(attempt, events, k);
}

/// Over any sequence of events applied to a card attempt, at most one
/// applies: with none the attempt is as it was, with one it is finished,
/// and a finished attempt applies none.
pub proof fn card_at_most_one_event_applies(attempt: CardGatewayAttempt, events: Seq<CardGatewayEvent>)
    ensures
        applied_count(attempt, events) <= 1,
        applied_count(attempt, events) == 0 ==> replay(attempt, events) == attempt,
        applied_count(attempt, events) == 1 ==> replay(attempt, events).spec_is_finished(),
        attempt.spec_is_finished() ==> applied_count(attempt, events) == 0 && replay(
            attempt,
            events,
        ) == attempt,
{
    lemma_card_steps();
    lemma_at_most_one(attempt, events);
}

/// Once a card attempt has finished part-way through a sequence of events,
/// the rest of the sequence leaves it as it was.
pub proof fn card_finished_attempt_never_changes(
    attempt: CardGatewayAttempt,
    events: Seq<CardGatewayEvent>,
    k: int,
)
    requires
        0 <= k <= events.len(),
        replay(attempt, events.take(k)).spec_is_finished(),
    ensures
        replay(attempt, events) == replay(attempt, events.take(k)),
{
    lemma_card_steps();
    lemma_finished_prefix(attempt, events, k);
}

/// Over any sequence of events applied to a boleto attempt, at most one
/// applies: with none the attempt is as it was, with one it is finished,
/// and a finished attempt applies none.
pub proof fn boleto_at_most_one_event_applies(
    attempt: BoletoGatewayAttempt,
    events: Seq<BoletoGatewayEvent>,
)
    ensures
        applied_count(attempt, events) <= 1,
        applied_count(attempt, events) == 0 ==> replay(attempt, events) == attempt,
        applied_count(attempt, events) == 1 ==> replay(attempt, events).spec_is_finished(),
        attempt.spec_is_finished() ==> applied_count(attempt, events) == 0 && replay(
            attempt,
            events,
        ) == attempt,
{
    lemma_boleto_steps();
    lemma_at_most_one(attempt, events);
}

/// Once a boleto attempt has finished part-way through a sequence of
/// events, the rest of the sequence leaves it as it was.
pub proof fn boleto_finished_attempt_never_changes(
    attempt: BoletoGatewayAttempt,
    events: Seq<BoletoGatewayEvent>,
    k: int,
)
    requires
        0 <= k <= events.len(),
        replay(attempt, events.take(k)).spec_is_finished(),
    ensures
        replay(attempt, events) == replay(attempt, events.take(k)),
{
    lemma_boleto_steps();
    lemma_finished_prefix(attempt, events, k);
}

} // verus!

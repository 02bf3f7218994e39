//! Laws of a payment attempt: how its state follows its gateway attempts,
//! and what every accepted event keeps.

use vstd::prelude::*;

use crate::entities::contracts::{GatewayAttemptActions, GatewayAttemptState};
use crate::entities::error::DomainError;
use crate::entities::events::payment_attempt::PaymentAttemptEvent;
use crate::entities::models::gateway_attempt::gateway_attempt::GatewayAttempt;
use crate::entities::models::gateway_attempt::pix::PixAttemptStatus;
use crate::entities::models::gateway_attempt::laws::{cancellation_keeps_identifier, paid_attempt_is_final};
use crate::entities::models::payment_attempt::{
    all_finished, allows_new_attempt, any_paid, attempts_after, position_of, status_of,
};
use crate::entities::models::status::PaymentAttemptStatus;

verus! {

/// The state computed from the gateway attempts agrees with the queries:
/// paid exactly when `is_paid`, failed exactly when `is_failed` (all
/// finished, none paid), pending otherwise.
pub proof fn status_agrees_with_queries(s: Seq<GatewayAttempt>)
    ensures
        (status_of(s) == PaymentAttemptStatus::Paid) == any_paid(s),
        (status_of(s) == PaymentAttemptStatus::Failed) == (all_finished(s) && !any_paid(s)),
        (status_of(s) == PaymentAttemptStatus::Pending) == (!all_finished(s) && !any_paid(s)),
{
}

/// A paid payment attempt refuses every new gateway attempt with
/// `PaymentAlreadyCompleted`.
pub proof fn paid_payment_refuses_new_attempts(s: Seq<GatewayAttempt>, attempt: GatewayAttempt)
    requires
        any_paid(s),
    ensures
        attempts_after(s, PaymentAttemptEvent::AttemptRequested(attempt)) == Err::<
            Seq<GatewayAttempt>,
            DomainError,
        >(DomainError::PaymentAlreadyCompleted),
{
}

proof fn lemma_position_in_range(s: Seq<GatewayAttempt>, id: crate::value_objects::ids::gateway_attempt_id::GatewayAttemptId)
    ensures
        -1 <= position_of(s, id) < s.len(),
        position_of(s, id) >= 0 ==> s[position_of(s, id)].spec_id() == id,
    decreases s.len(),
{
    if s.len() > 0 {
        lemma_position_in_range(s.drop_last(), id);
    }
}

/// Once paid, a payment attempt stays paid under every event it accepts.
pub proof fn paid_stays_paid(s: Seq<GatewayAttempt>, event: PaymentAttemptEvent)
    requires
        any_paid(s),
    ensures
        attempts_after(s, event) matches Ok(next) ==> any_paid(next),
{
    match event {
        PaymentAttemptEvent::CancellationRequested(id) => {
            lemma_position_in_range(s, id);
            let k = position_of(s, id);
            if k >= 0 && s[k].spec_can_be_cancelled() {
                let next = s.update(k, s[k].spec_cancellation_requested());
                let j = choose|j: int| 0 <= j < s.len() && #[trigger] s[j].spec_is_paid();
                paid_attempt_is_final(s[j]);
                assert(j != k);
                assert(next[j] == s[j]);
            }
        },
        PaymentAttemptEvent::AttemptRequested(_) => {},
    }
}

/// No accepted event removes a gateway attempt or changes whose it is:
/// every attempt keeps its place and its identifier.
pub proof fn attempts_are_kept(s: Seq<GatewayAttempt>, event: PaymentAttemptEvent)
    ensures
        attempts_after(s, event) matches Ok(next) ==> {
            &&& next.len() >= s.len()
            &&& forall|i: int| 0 <= i < s.len() ==> #[trigger] next[i].spec_id() == s[i].spec_id()
        },
{
    match event {
        PaymentAttemptEvent::CancellationRequested(id) => {
            lemma_position_in_range(s, id);
            let k = position_of(s, id);
            if k >= 0 {
                cancellation_keeps_identifier(s[k]);
            }
        },
        PaymentAttemptEvent::AttemptRequested(_) => {},
    }
}

/// A payment attempt that accepts a new gateway attempt afterwards holds it
/// last, and is paid only if that new attempt is.
pub proof fn new_attempt_is_appended(s: Seq<GatewayAttempt>, attempt: GatewayAttempt)
    requires
        allows_new_attempt(s),
    ensures
        attempts_after(s, PaymentAttemptEvent::AttemptRequested(attempt)) == Ok::<
            Seq<GatewayAttempt>,
            DomainError,
        >(s.push(attempt)),
        any_paid(s.push(attempt)) == attempt.spec_is_paid(),
{
    let t = s.push(attempt);
    if any_paid(t) && !attempt.spec_is_paid() {
        let j = choose|j: int| 0 <= j < t.len() && #[trigger] t[j].spec_is_paid();
        assert(t[j] == s[j]);
    }
    if attempt.spec_is_paid() {
        assert(t[s.len() as int] == attempt);
    }
}


/// A new gateway attempt may start exactly when no gateway attempt is paid
/// and none blocks the payment. In particular, gateway attempts that are
/// all unpaid Pix charges (pending ones among them) never stop a new one,
/// and a new attempt is then appended.
pub proof fn new_attempt_allowed_unless_paid_or_blocked(s: Seq<GatewayAttempt>, attempt: GatewayAttempt)
    ensures
        allows_new_attempt(s) <==> ((forall|i: int| 0 <= i < s.len() ==> !#[trigger] s[i].spec_is_paid())
            && (forall|i: int| 0 <= i < s.len() ==> !#[trigger] s[i].spec_blocks_payment_attempt())),
        (forall|i: int|
            0 <= i < s.len() ==> (#[trigger] s[i] matches GatewayAttempt::Pix(a) && a.status
                != PixAttemptStatus::Paid)) ==> allows_new_attempt(s) && attempts_after(
            s,
            PaymentAttemptEvent::AttemptRequested(attempt),
        ) == Ok::<Seq<GatewayAttempt>, DomainError>(s.push(attempt)),
{
    if forall|i: int|
        0 <= i < s.len() ==> (#[trigger] s[i] matches GatewayAttempt::Pix(a) && a.status
            != PixAttemptStatus::Paid) {
        assert forall|i: int| 0 <= i < s.len() implies !#[trigger] s[i].spec_blocks_payment_attempt()
            && !s[i].spec_is_paid() by {
            assert(s[i] matches GatewayAttempt::Pix(a) && a.status != PixAttemptStatus::Paid);
        }
    }
}

} // verus!

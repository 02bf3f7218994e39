use chrono::Utc;
use domain::entities::contracts::{GatewayAttemptActions, GatewayAttemptState, GatewayEventHandler};
use domain::entities::events::{GatewayEvent, BoletoGatewayEvent};
use domain::entities::models::gateway_attempt::{BoletoAttemptStatus, BoletoGatewayAttempt, GatewayAttemptEventResult};
use domain::gateway::gateway_name::GatewayName;
use domain::value_objects::expiration::{Expiration, UtcDateTime};
use domain::value_objects::ids::{gateway_attempt_id::GatewayAttemptId, payment_attempt_id::PaymentAttemptId};
use domain::value_objects::payment_method::outcome::boleto::BoletoData;

fn now() -> UtcDateTime {
    let now = Utc::now();
    UtcDateTime::new(now.timestamp(), now.timestamp_subsec_nanos())
}

fn struct_valid() -> BoletoGatewayAttempt {
    let id = GatewayAttemptId::generate();
    let payment_attempt_id = PaymentAttemptId::generate();
    let gateway_name = GatewayName::MercadoPago;
    let outcome = BoletoData::new("barcode", "digitable_line", None::<String>, Expiration::new(now()));

    BoletoGatewayAttempt::new(id, payment_attempt_id, gateway_name, outcome)
}

#[test]
fn boleto_returns_true_when_status_is_pending() {
    let mut attempt = struct_valid();
    attempt.status = BoletoAttemptStatus::Pending;

    assert!(attempt.can_be_cancelled());
}

#[test]
fn boleto_returns_false_when_status_is_requested() {
    let attempt = struct_valid();

    assert!(!attempt.can_be_cancelled());
}

#[test]
fn boleto_returns_false_when_status_is_cancellation_requested() {
    let mut attempt = struct_valid();
    attempt.status = BoletoAttemptStatus::CancellationRequested;

    assert!(!attempt.can_be_cancelled());
}

#[test]
fn boleto_returns_false_when_status_is_paid() {
    let mut attempt = struct_valid();
    attempt.status = BoletoAttemptStatus::Paid;

    assert!(!attempt.can_be_cancelled());
}

#[test]
fn boleto_returns_false_when_status_is_cancelled() {
    let mut attempt = struct_valid();
    attempt.status = BoletoAttemptStatus::Cancelled;

    assert!(!attempt.can_be_cancelled());
}

#[test]
fn boleto_returns_false_when_status_is_expired() {
    let mut attempt = struct_valid();
    attempt.status = BoletoAttemptStatus::Expired;

    assert!(!attempt.can_be_cancelled());
}

#[test]
fn boleto_returns_false_when_status_is_failed() {
    let mut attempt = struct_valid();
    attempt.status = BoletoAttemptStatus::Failed;

    assert!(!attempt.can_be_cancelled());
}

#[test]
fn boleto_blocks_payment_attempt_returns_true_when_status_is_pending() {
    let mut attempt = struct_valid();
    attempt.status = BoletoAttemptStatus::Pending;

    assert!(attempt.blocks_payment_attempt());
}

#[test]
fn boleto_returns_true_when_status_is_paid() {
    let mut attempt = struct_valid();
    attempt.status = BoletoAttemptStatus::Paid;

    assert!(attempt.blocks_payment_attempt());
}

#[test]
fn boleto_returns_true_when_status_is_requested() {
    let attempt = struct_valid();

    assert!(attempt.blocks_payment_attempt());
}

#[test]
fn boleto_returns_true_when_status_is_cancellation_requested() {
    let mut attempt = struct_valid();
    attempt.status = BoletoAttemptStatus::CancellationRequested;

    assert!(attempt.blocks_payment_attempt());
}

#[test]
fn boleto_blocks_payment_attempt_returns_false_when_status_is_cancelled() {
    let mut attempt = struct_valid();
    attempt.status = BoletoAttemptStatus::Cancelled;

    assert!(!attempt.blocks_payment_attempt());
}

#[test]
fn boleto_blocks_payment_attempt_returns_false_when_status_is_expired() {
    let mut attempt = struct_valid();
    attempt.status = BoletoAttemptStatus::Expired;

    assert!(!attempt.blocks_payment_attempt());
}

#[test]
fn boleto_blocks_payment_attempt_returns_false_when_status_is_failed() {
    let mut attempt = struct_valid();
    attempt.status = BoletoAttemptStatus::Failed;

    assert!(!attempt.blocks_payment_attempt());
}

#[test]
fn boleto_cancels_and_returns_true_when_status_is_pending() {
    let mut attempt = struct_valid();
    attempt.status = BoletoAttemptStatus::Pending;

    let result = attempt.request_cancellation();

    assert!(result);
    assert_eq!(attempt.status, BoletoAttemptStatus::CancellationRequested);
}

#[test]
fn boleto_returns_false_and_preserves_status_when_requested() {
    let mut attempt = struct_valid();

    let result = attempt.request_cancellation();

    assert!(!result);
    assert_eq!(attempt.status, BoletoAttemptStatus::Requested);
}

#[test]
fn boleto_returns_false_and_preserves_status_when_cancellation_already_requested() {
    let mut attempt = struct_valid();
    attempt.status = BoletoAttemptStatus::CancellationRequested;

    let result = attempt.request_cancellation();

    assert!(!result);
    assert_eq!(attempt.status, BoletoAttemptStatus::CancellationRequested);
}

#[test]
fn boleto_returns_false_and_preserves_status_when_paid() {
    let mut attempt = struct_valid();
    attempt.status = BoletoAttemptStatus::Paid;

    let result = attempt.request_cancellation();

    assert!(!result);
    assert_eq!(attempt.status, BoletoAttemptStatus::Paid);
}

#[test]
fn boleto_returns_false_and_preserves_status_when_cancelled() {
    let mut attempt = struct_valid();
    attempt.status = BoletoAttemptStatus::Cancelled;

    let result = attempt.request_cancellation();

    assert!(!result);
    assert_eq!(attempt.status, BoletoAttemptStatus::Cancelled);
}

#[test]
fn boleto_returns_false_and_preserves_status_when_expired() {
    let mut attempt = struct_valid();
    attempt.status = BoletoAttemptStatus::Expired;

    let result = attempt.request_cancellation();

    assert!(!result);
    assert_eq!(attempt.status, BoletoAttemptStatus::Expired);
}

#[test]
fn boleto_returns_false_and_preserves_status_when_failed() {
    let mut attempt = struct_valid();
    attempt.status = BoletoAttemptStatus::Failed;

    let result = attempt.request_cancellation();

    assert!(!result);
    assert_eq!(attempt.status, BoletoAttemptStatus::Failed);
}

#[test]
fn boleto_is_paid_returns_true_when_status_is_paid() {
    let mut attempt = struct_valid();
    attempt.status = BoletoAttemptStatus::Paid;

    assert!(attempt.is_paid());
}

#[test]
fn boleto_returns_false_when_status_is_not_paid() {
    let attempt = struct_valid();

    assert!(!attempt.is_paid());
}

#[test]
fn boleto_returns_true_when_status_is_failed() {
    let mut attempt = struct_valid();
    attempt.status = BoletoAttemptStatus::Failed;

    assert!(attempt.is_failed());
}

#[test]
fn boleto_returns_false_when_status_is_not_failed() {
    let attempt = struct_valid();

    assert!(!attempt.is_failed());
}

#[test]
fn boleto_returns_true_when_status_is_cancelled() {
    let mut attempt = struct_valid();
    attempt.status = BoletoAttemptStatus::Cancelled;

    assert!(attempt.is_cancelled());
}

#[test]
fn boleto_returns_false_when_status_is_not_cancelled() {
    let attempt = struct_valid();

    assert!(!attempt.is_cancelled());
}

#[test]
fn boleto_is_finished_returns_true_when_status_is_paid() {
    let mut attempt = struct_valid();
    attempt.status = BoletoAttemptStatus::Paid;

    assert!(attempt.is_finished());
}

#[test]
fn boleto_is_finished_returns_true_when_status_is_failed() {
    let mut attempt = struct_valid();
    attempt.status = BoletoAttemptStatus::Failed;

    assert!(attempt.is_finished());
}

#[test]
fn boleto_is_finished_returns_true_when_status_is_cancelled() {
    let mut attempt = struct_valid();
    attempt.status = BoletoAttemptStatus::Cancelled;

    assert!(attempt.is_finished());
}

#[test]
fn boleto_returns_true_when_status_is_expired() {
    let mut attempt = struct_valid();
    attempt.status = BoletoAttemptStatus::Expired;

    assert!(attempt.is_finished());
}

#[test]
fn boleto_is_finished_returns_false_when_status_is_requested() {
    let attempt = struct_valid();

    assert!(!attempt.is_finished());
}

#[test]
fn boleto_returns_false_when_status_is_pending() {
    let mut attempt = struct_valid();
    attempt.status = BoletoAttemptStatus::Pending;

    assert!(!attempt.is_finished());
}

#[test]
fn boleto_is_finished_returns_false_when_status_is_cancellation_requested() {
    let mut attempt = struct_valid();
    attempt.status = BoletoAttemptStatus::CancellationRequested;

    assert!(!attempt.is_finished());
}

#[test]
fn boleto_applies_paid_event_from_requested() {
    let mut attempt = struct_valid();

    let result = attempt.apply_event(BoletoGatewayEvent::Paid);

    assert!(matches!(result, GatewayAttemptEventResult::Applied));
    assert_eq!(attempt.status, BoletoAttemptStatus::Paid);
}

#[test]
fn boleto_applies_cancelled_event_from_requested() {
    let mut attempt = struct_valid();

    let result = attempt.apply_event(BoletoGatewayEvent::Cancelled);

    assert!(matches!(result, GatewayAttemptEventResult::Applied));
    assert_eq!(attempt.status, BoletoAttemptStatus::Cancelled);
}

#[test]
fn boleto_applies_expired_event_from_requested() {
    let mut attempt = struct_valid();

    let result = attempt.apply_event(BoletoGatewayEvent::Expired);

    assert!(matches!(result, GatewayAttemptEventResult::Applied));
    assert_eq!(attempt.status, BoletoAttemptStatus::Expired);
}

#[test]
fn boleto_applies_failed_event_from_requested() {
    let mut attempt = struct_valid();

    let result = attempt.apply_event(BoletoGatewayEvent::Failed);

    assert!(matches!(result, GatewayAttemptEventResult::Applied));
    assert_eq!(attempt.status, BoletoAttemptStatus::Failed);
}

#[test]
fn boleto_applies_paid_event_from_pending() {
    let mut attempt = struct_valid();
    attempt.status = BoletoAttemptStatus::Pending;

    let result = attempt.apply_event(BoletoGatewayEvent::Paid);

    assert!(matches!(result, GatewayAttemptEventResult::Applied));
    assert_eq!(attempt.status, BoletoAttemptStatus::Paid);
}

#[test]
fn boleto_applies_paid_event_from_cancellation_requested() {
    let mut attempt = struct_valid();
    attempt.status = BoletoAttemptStatus::CancellationRequested;

    let result = attempt.apply_event(BoletoGatewayEvent::Paid);

    assert!(matches!(result, GatewayAttemptEventResult::Applied));
    assert_eq!(attempt.status, BoletoAttemptStatus::Paid);
}

#[test]
fn boleto_cannot_apply_paid_event_when_already_paid() {
    let mut attempt = struct_valid();
    attempt.status = BoletoAttemptStatus::Paid;

    let result = attempt.apply_event(BoletoGatewayEvent::Paid);

    assert!(matches!(result, GatewayAttemptEventResult::Conflict(_)));
    assert_eq!(attempt.status, BoletoAttemptStatus::Paid);
}

#[test]
fn boleto_cannot_apply_paid_event_when_already_cancelled() {
    let mut attempt = struct_valid();
    attempt.status = BoletoAttemptStatus::Cancelled;

    let result = attempt.apply_event(BoletoGatewayEvent::Paid);

    assert!(matches!(result, GatewayAttemptEventResult::Conflict(_)));
    assert_eq!(attempt.status, BoletoAttemptStatus::Cancelled);
}

#[test]
fn boleto_cannot_apply_paid_event_when_already_expired() {
    let mut attempt = struct_valid();
    attempt.status = BoletoAttemptStatus::Expired;

    let result = attempt.apply_event(BoletoGatewayEvent::Paid);

    assert!(matches!(result, GatewayAttemptEventResult::Conflict(_)));
    assert_eq!(attempt.status, BoletoAttemptStatus::Expired);
}

#[test]
fn boleto_cannot_apply_paid_event_when_already_failed() {
    let mut attempt = struct_valid();
    attempt.status = BoletoAttemptStatus::Failed;

    let result = attempt.apply_event(BoletoGatewayEvent::Paid);

    assert!(matches!(result, GatewayAttemptEventResult::Conflict(_)));
    assert_eq!(attempt.status, BoletoAttemptStatus::Failed);
}

#[test]
fn boleto_preserves_status_when_event_is_rejected() {
    let mut attempt = struct_valid();
    attempt.status = BoletoAttemptStatus::Cancelled;

    let status_before = attempt.status;

    let result = attempt.apply_event(BoletoGatewayEvent::Expired);

    assert!(matches!(result, GatewayAttemptEventResult::Conflict(_)));
    assert_eq!(attempt.status, status_before);
}

#[test]
fn boleto_conflict_result_references_correct_attempt_id() {
    let mut attempt = struct_valid();
    attempt.status = BoletoAttemptStatus::Paid;
    let expected_id = attempt.id();

    let result = attempt.apply_event(BoletoGatewayEvent::Paid);

    match result {
        GatewayAttemptEventResult::Conflict(conflict) => {
            let (id, event) = conflict.into_parts();
            assert_eq!(id, expected_id);
            assert!(matches!(
                event,
                GatewayEvent::Boleto(BoletoGatewayEvent::Paid)
            ));
        }
        _ => panic!("expected a conflict result"),
    }
}

#[test]
fn boleto_reapplying_paid_event_after_success_returns_conflict() {
    let mut attempt = struct_valid();

    let first_result = attempt.apply_event(BoletoGatewayEvent::Paid);
    assert!(matches!(first_result, GatewayAttemptEventResult::Applied));

    let status_after_first_event = attempt.status;

    let second_result = attempt.apply_event(BoletoGatewayEvent::Paid);

    assert!(matches!(
        second_result,
        GatewayAttemptEventResult::Conflict(_)
    ));
    assert_eq!(attempt.status, status_after_first_event);
}

use chrono::Utc;
use domain::entities::contracts::{GatewayAttemptActions, GatewayAttemptState, GatewayEventHandler};
use domain::entities::events::{GatewayEvent, PixGatewayEvent};
use domain::entities::models::gateway_attempt::{PixAttemptStatus, PixGatewayAttempt, GatewayAttemptEventResult};
use domain::gateway::gateway_name::GatewayName;
use domain::value_objects::expiration::{Expiration, UtcDateTime};
use domain::value_objects::ids::{gateway_attempt_id::GatewayAttemptId, payment_attempt_id::PaymentAttemptId};
use domain::value_objects::payment_method::outcome::pix::PixData;

fn now() -> UtcDateTime {
    let now = Utc::now();
    UtcDateTime::new(now.timestamp(), now.timestamp_subsec_nanos())
}

fn struct_valid() -> PixGatewayAttempt {
    let id = GatewayAttemptId::generate();
    let payment_attempt_id = PaymentAttemptId::generate();
    let gateway_name = GatewayName::MercadoPago;
    let outcome = PixData::new("qr_code", None, None, Expiration::new(now()));

    PixGatewayAttempt::new(id, payment_attempt_id, gateway_name, outcome)
}

#[test]
fn pix_returns_true_when_status_is_pending() {
    let mut attempt = struct_valid();
    attempt.status =PixAttemptStatus::Pending;

    assert!(attempt.can_be_cancelled());
}

#[test]
fn pix_returns_false_when_status_is_requested() {
    let mut attempt = struct_valid();
    attempt.status = PixAttemptStatus::Requested;

    assert!(!attempt.can_be_cancelled());
}

#[test]
fn pix_returns_false_when_status_is_cancellation_requested() {
    let mut attempt = struct_valid();
    attempt.status = PixAttemptStatus::CancellationRequested;

    assert!(!attempt.can_be_cancelled());
}

#[test]
fn pix_returns_false_when_status_is_paid() {
    let mut attempt = struct_valid();
    attempt.status = PixAttemptStatus::Paid;

    assert!(!attempt.can_be_cancelled());
}

#[test]
fn pix_returns_false_when_status_is_cancelled() {
    let mut attempt = struct_valid();
    attempt.status = PixAttemptStatus::Cancelled;

    assert!(!attempt.can_be_cancelled());
}

#[test]
fn returns_false_when_status_is_expired() {
    let mut attempt = struct_valid();
    attempt.status = PixAttemptStatus::Expired;

    assert!(!attempt.can_be_cancelled());
}

#[test]
fn pix_returns_false_when_status_is_failed() {
    let mut attempt = struct_valid();
    attempt.status = PixAttemptStatus::Failed;

    assert!(!attempt.can_be_cancelled());
}

#[test]
fn pix_returns_true_when_status_is_paid() {
    let mut attempt = struct_valid();
    attempt.status = PixAttemptStatus::Paid;

    assert!(attempt.blocks_payment_attempt());
}

#[test]
fn pix_returns_false_when_status_is_pending() {
    let attempt = struct_valid();

    assert!(!attempt.blocks_payment_attempt());
}

#[test]
fn pix_blocks_payment_attempt_returns_false_when_status_is_requested() {
    let mut attempt = struct_valid();
    attempt.status = PixAttemptStatus::Requested;

    assert!(!attempt.blocks_payment_attempt());
}

#[test]
fn pix_blocks_payment_attempt_returns_false_when_status_is_cancellation_requested() {
    let mut attempt = struct_valid();
    attempt.status = PixAttemptStatus::CancellationRequested;

    assert!(!attempt.blocks_payment_attempt());
}

#[test]
fn pix_blocks_payment_attempt_returns_false_when_status_is_cancelled() {
    let mut attempt = struct_valid();
    attempt.status = PixAttemptStatus::Cancelled;

    assert!(!attempt.blocks_payment_attempt());
}

#[test]
fn pix_returns_false_when_status_is_expired() {
    let mut attempt = struct_valid();
    attempt.status = PixAttemptStatus::Expired;

    assert!(!attempt.blocks_payment_attempt());
}

#[test]
fn pix_blocks_payment_attempt_returns_false_when_status_is_failed() {
    let mut attempt = struct_valid();
    attempt.status = PixAttemptStatus::Failed;

    assert!(!attempt.blocks_payment_attempt());
}

#[test]
fn pix_cancels_and_returns_true_when_status_is_pending() {
    let mut attempt = struct_valid();
    attempt.status = PixAttemptStatus::Pending;

    let result = attempt.request_cancellation();

    assert!(result);
    assert_eq!(attempt.status(), PixAttemptStatus::CancellationRequested);
}

#[test]
fn pix_returns_false_and_preserves_status_when_requested() {
    let mut attempt = struct_valid();
    attempt.status = PixAttemptStatus::Requested;

    let result = attempt.request_cancellation();

    assert!(!result);
    assert_eq!(attempt.status(), PixAttemptStatus::Requested);
}

#[test]
fn returns_false_andlrea_preserves_status_when_cancellation_ady_requested() {
    let mut attempt = struct_valid();
    attempt.status = PixAttemptStatus::CancellationRequested;

    let result = attempt.request_cancellation();

    assert!(!result);
    assert_eq!(attempt.status(), PixAttemptStatus::CancellationRequested);
}

#[test]
fn pix_returns_false_and_preserves_status_when_paid() {
    let mut attempt = struct_valid();
    attempt.status = PixAttemptStatus::Paid;

    let result = attempt.request_cancellation();

    assert!(!result);
    assert_eq!(attempt.status(), PixAttemptStatus::Paid);
}

#[test]
fn pix_returns_false_and_preserves_status_when_cancelled() {
    let mut attempt = struct_valid();
    attempt.status = PixAttemptStatus::Cancelled;

    let result = attempt.request_cancellation();

    assert!(!result);
    assert_eq!(attempt.status(), PixAttemptStatus::Cancelled);
}

#[test]
fn returns_false_and_preserves_status_when_expired() {
    let mut attempt = struct_valid();
    attempt.status = PixAttemptStatus::Expired;

    let result = attempt.request_cancellation();

    assert!(!result);
    assert_eq!(attempt.status(), PixAttemptStatus::Expired);
}

#[test]
fn pix_returns_false_and_preserves_status_when_failed() {
    let mut attempt = struct_valid();
    attempt.status = PixAttemptStatus::Failed;

    let result = attempt.request_cancellation();

    assert!(!result);
    assert_eq!(attempt.status(), PixAttemptStatus::Failed);
}

#[test]
fn pix_is_paid_returns_true_when_status_is_paid() {
    let mut attempt = struct_valid();
    attempt.status = PixAttemptStatus::Paid;

    assert!(attempt.is_paid());
}

#[test]
fn pix_returns_false_when_status_is_not_paid() {
    let attempt = struct_valid();

    assert!(!attempt.is_paid());
}

#[test]
fn pix_returns_true_when_status_is_failed() {
    let mut attempt = struct_valid();
    attempt.status = PixAttemptStatus::Failed;

    assert!(attempt.is_failed());
}

#[test]
fn pix_returns_false_when_status_is_not_failed() {
    let attempt = struct_valid();

    assert!(!attempt.is_failed());
}

#[test]
fn pix_returns_true_when_status_is_cancelled() {
    let mut attempt = struct_valid();
    attempt.status = PixAttemptStatus::Cancelled;

    assert!(attempt.is_cancelled());
}

#[test]
fn pix_returns_false_when_status_is_not_cancelled() {
    let attempt = struct_valid();

    assert!(!attempt.is_cancelled());
}

#[test]
fn pix_is_finished_returns_true_when_status_is_paid() {
    let mut attempt = struct_valid();
    attempt.status = PixAttemptStatus::Paid;

    assert!(attempt.is_finished());
}

#[test]
fn pix_is_finished_returns_true_when_status_is_failed() {
    let mut attempt = struct_valid();
    attempt.status = PixAttemptStatus::Failed;

    assert!(attempt.is_finished());
}

#[test]
fn pix_is_finished_returns_true_when_status_is_cancelled() {
    let mut attempt = struct_valid();
    attempt.status = PixAttemptStatus::Cancelled;

    assert!(attempt.is_finished());
}

#[test]
fn returns_true_when_status_is_expired() {
    let mut attempt = struct_valid();
    attempt.status = PixAttemptStatus::Expired;

    assert!(attempt.is_finished());
}

#[test]
fn pix_is_finished_returns_false_when_status_is_pending() {
    let attempt = struct_valid();

    assert!(!attempt.is_finished());
}

#[test]
fn pix_is_finished_returns_false_when_status_is_requested() {
    let mut attempt = struct_valid();
    attempt.status = PixAttemptStatus::Requested;

    assert!(!attempt.is_finished());
}

#[test]
fn pix_is_finished_returns_false_when_status_is_cancellation_requested() {
    let mut attempt = struct_valid();
    attempt.status = PixAttemptStatus::CancellationRequested;

    assert!(!attempt.is_finished());
}

#[test]
fn pix_applies_paid_event_from_pending() {
    let mut attempt = struct_valid();

    let result = attempt.apply_event(PixGatewayEvent::Paid);

    assert!(matches!(result, GatewayAttemptEventResult::Applied));
    assert_eq!(attempt.status(), PixAttemptStatus::Paid);
}

#[test]
fn pix_applies_paid_event_from_requested() {
    let mut attempt = struct_valid();
    attempt.status = PixAttemptStatus::Requested;

    let result = attempt.apply_event(PixGatewayEvent::Paid);

    assert!(matches!(result, GatewayAttemptEventResult::Applied));
    assert_eq!(attempt.status(), PixAttemptStatus::Paid);
}

#[test]
fn pix_applies_paid_event_from_cancellation_requested() {
    let mut attempt = struct_valid();
    attempt.status = PixAttemptStatus::CancellationRequested;

    let result = attempt.apply_event(PixGatewayEvent::Paid);

    assert!(matches!(result, GatewayAttemptEventResult::Applied));
    assert_eq!(attempt.status(), PixAttemptStatus::Paid);
}

#[test]
fn pix_applies_failed_event_from_pending() {
    let mut attempt = struct_valid();

    let result = attempt.apply_event(PixGatewayEvent::Failed);

    assert!(matches!(result, GatewayAttemptEventResult::Applied));
    assert_eq!(attempt.status(), PixAttemptStatus::Failed);
}

#[test]
fn applies_failed_event_from_requested() {
    let mut attempt = struct_valid();
    attempt.status = PixAttemptStatus::Requested;

    let result = attempt.apply_event(PixGatewayEvent::Failed);

    assert!(matches!(result, GatewayAttemptEventResult::Applied));
    assert_eq!(attempt.status(), PixAttemptStatus::Failed);
}

#[test]
fn pix_applies_cancelled_event_from_pending() {
    let mut attempt = struct_valid();

    let result = attempt.apply_event(PixGatewayEvent::Cancelled);

    assert!(matches!(result, GatewayAttemptEventResult::Applied));
    assert_eq!(attempt.status(), PixAttemptStatus::Cancelled);
}

#[test]
fn applies_cancelled_event_from_requested() {
    let mut attempt = struct_valid();
    attempt.status = PixAttemptStatus::Requested;

    let result = attempt.apply_event(PixGatewayEvent::Cancelled);

    assert!(matches!(result, GatewayAttemptEventResult::Applied));
    assert_eq!(attempt.status(), PixAttemptStatus::Cancelled);
}

#[test]
fn applies_cancelled_event_from_cancellation_requested() {
    let mut attempt = struct_valid();
    attempt.status = PixAttemptStatus::CancellationRequested;

    let result = attempt.apply_event(PixGatewayEvent::Cancelled);

    assert!(matches!(result, GatewayAttemptEventResult::Applied));
    assert_eq!(attempt.status(), PixAttemptStatus::Cancelled);
}

#[test]
fn applies_expired_event_from_pending() {
    let mut attempt = struct_valid();

    let result = attempt.apply_event(PixGatewayEvent::Expired);

    assert!(matches!(result, GatewayAttemptEventResult::Applied));
    assert_eq!(attempt.status(), PixAttemptStatus::Expired);
}

#[test]
fn applies_expired_event_from_requested() {
    let mut attempt = struct_valid();
    attempt.status = PixAttemptStatus::Requested;

    let result = attempt.apply_event(PixGatewayEvent::Expired);

    assert!(matches!(result, GatewayAttemptEventResult::Applied));
    assert_eq!(attempt.status(), PixAttemptStatus::Expired);
}

#[test]
fn applies_expired_event_from_cancellation_requested() {
    let mut attempt = struct_valid();
    attempt.status = PixAttemptStatus::CancellationRequested;

    let result = attempt.apply_event(PixGatewayEvent::Expired);

    assert!(matches!(result, GatewayAttemptEventResult::Applied));
    assert_eq!(attempt.status(), PixAttemptStatus::Expired);
}

#[test]
fn pix_cannot_apply_paid_event_when_already_paid() {
    let mut attempt = struct_valid();
    attempt.status = PixAttemptStatus::Paid;

    let result = attempt.apply_event(PixGatewayEvent::Paid);

    assert!(matches!(result, GatewayAttemptEventResult::Conflict(_)));
    assert_eq!(attempt.status(), PixAttemptStatus::Paid);
}

#[test]
fn cannot_apply_failed_event_when_already_paid() {
    let mut attempt = struct_valid();
    attempt.status = PixAttemptStatus::Paid;

    let result = attempt.apply_event(PixGatewayEvent::Failed);

    assert!(matches!(result, GatewayAttemptEventResult::Conflict(_)));
    assert_eq!(attempt.status(), PixAttemptStatus::Paid);
}

#[test]
fn cannot_apply_cancelled_event_when_already_paid() {
    let mut attempt = struct_valid();
    attempt.status = PixAttemptStatus::Paid;

    let result = attempt.apply_event(PixGatewayEvent::Cancelled);

    assert!(matches!(result, GatewayAttemptEventResult::Conflict(_)));
    assert_eq!(attempt.status(), PixAttemptStatus::Paid);
}

#[test]
fn cannot_apply_expired_event_when_already_paid() {
    let mut attempt = struct_valid();
    attempt.status = PixAttemptStatus::Paid;

    let result = attempt.apply_event(PixGatewayEvent::Expired);

    assert!(matches!(result, GatewayAttemptEventResult::Conflict(_)));
    assert_eq!(attempt.status(), PixAttemptStatus::Paid);
}

#[test]
fn pix_cannot_apply_paid_event_when_already_cancelled() {
    let mut attempt = struct_valid();
    attempt.status = PixAttemptStatus::Cancelled;

    let result = attempt.apply_event(PixGatewayEvent::Paid);

    assert!(matches!(result, GatewayAttemptEventResult::Conflict(_)));
    assert_eq!(attempt.status(), PixAttemptStatus::Cancelled);
}

#[test]
fn cannot_apply_paid_event_when_already_expired() {
    let mut attempt = struct_valid();
    attempt.status = PixAttemptStatus::Expired;

    let result = attempt.apply_event(PixGatewayEvent::Paid);

    assert!(matches!(result, GatewayAttemptEventResult::Conflict(_)));
    assert_eq!(attempt.status(), PixAttemptStatus::Expired);
}

#[test]
fn pix_cannot_apply_paid_event_when_already_failed() {
    let mut attempt = struct_valid();
    attempt.status = PixAttemptStatus::Failed;

    let result = attempt.apply_event(PixGatewayEvent::Paid);

    assert!(matches!(result, GatewayAttemptEventResult::Conflict(_)));
    assert_eq!(attempt.status(), PixAttemptStatus::Failed);
}

#[test]
fn cannot_apply_failed_event_when_cancellation_requested() {
    let mut attempt = struct_valid();
    attempt.status = PixAttemptStatus::CancellationRequested;

    let result = attempt.apply_event(PixGatewayEvent::Failed);

    assert!(matches!(result, GatewayAttemptEventResult::Conflict(_)));
    assert_eq!(attempt.status(), PixAttemptStatus::CancellationRequested);
}

#[test]
fn pix_preserves_status_when_event_is_rejected() {
    let mut attempt = struct_valid();
    attempt.status = PixAttemptStatus::Cancelled;

    let status_before = attempt.status();

    let result = attempt.apply_event(PixGatewayEvent::Expired);

    assert!(matches!(result, GatewayAttemptEventResult::Conflict(_)));
    assert_eq!(attempt.status(), status_before);
}

#[test]
fn pix_conflict_result_references_correct_attempt_id() {
    let mut attempt = struct_valid();
    attempt.status = PixAttemptStatus::Paid;
    let expected_id = attempt.id();

    let result = attempt.apply_event(PixGatewayEvent::Paid);

    match result {
        GatewayAttemptEventResult::Conflict(conflict) => {
            let (id, event) = conflict.into_parts();
            assert_eq!(id, expected_id);
            assert!(matches!(
                event,
                GatewayEvent::Pix(PixGatewayEvent::Paid)
            ));
        }
        _ => panic!("expected a conflict result"),
    }
}

#[test]
fn pix_reapplying_paid_event_after_success_returns_conflict() {
    let mut attempt = struct_valid();

    let first_result = attempt.apply_event(PixGatewayEvent::Paid);
    assert!(matches!(first_result, GatewayAttemptEventResult::Applied));

    let status_after_first_event = attempt.status();

    let second_result = attempt.apply_event(PixGatewayEvent::Paid);

    assert!(matches!(
        second_result,
        GatewayAttemptEventResult::Conflict(_)
    ));
    assert_eq!(attempt.status(), status_after_first_event);
}

use domain::entities::error::DomainError;
use domain::error::{AppError, ValidationError};

#[test]
fn domain_errors_describe_themselves() {
    assert_eq!(DomainError::CannotCreateGatewayAttempt.message(), "cannot create a new gateway attempt");
    assert_eq!(DomainError::GatewayAttemptCannotBeCancelled.message(), "gateway attempt cannot be cancelled");
    assert_eq!(DomainError::GatewayAttemptNotFound.message(), "gateway attempt not found");
    assert_eq!(DomainError::PaymentAlreadyCompleted.message(), "Payment already completed");
    assert_eq!(DomainError::InvalidGatewayEvent.message(), "Invalid Gateway Event");
}

#[test]
fn app_error_wraps_validation_errors() {
    let error = AppError::from(ValidationError::InvalidEmail);

    assert_eq!(error, AppError::Validation(ValidationError::InvalidEmail));
    assert_eq!(error.message(), ValidationError::InvalidEmail.message());
}

#[test]
fn app_error_wraps_domain_errors() {
    let error: AppError = DomainError::GatewayAttemptNotFound.into();

    assert_eq!(error, AppError::Domain(DomainError::GatewayAttemptNotFound));
    assert_eq!(error.message(), "gateway attempt not found");
}

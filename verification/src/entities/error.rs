use vstd::prelude::*;

verus! {

/// Why a domain operation was refused.
#[derive(Debug, Clone, Copy, PartialEq, Eq, Structural)]
pub enum DomainError {
    CannotCreateGatewayAttempt,
    GatewayAttemptCannotBeCancelled,
    GatewayAttemptNotFound,
    PaymentAlreadyCompleted,
    InvalidGatewayEvent,
}

impl DomainError {
    pub open spec fn spec_message(&self) -> Seq<char> {
        match self {
            DomainError::CannotCreateGatewayAttempt => "cannot create a new gateway attempt"@,
            DomainError::GatewayAttemptCannotBeCancelled => "gateway attempt cannot be cancelled"@,
            DomainError::GatewayAttemptNotFound => "gateway attempt not found"@,
            DomainError::PaymentAlreadyCompleted => "Payment already completed"@,
            DomainError::InvalidGatewayEvent => "Invalid Gateway Event"@,
        }
    }

    /// The human-readable description of the error.
    pub fn message(&self) -> (r: &'static str)
        ensures
            r@ == self.spec_message(),
    {
        match self {
            DomainError::CannotCreateGatewayAttempt => "cannot create a new gateway attempt",
            DomainError::GatewayAttemptCannotBeCancelled => "gateway attempt cannot be cancelled",
            DomainError::GatewayAttemptNotFound => "gateway attempt not found",
            DomainError::PaymentAlreadyCompleted => "Payment already completed",
            DomainError::InvalidGatewayEvent => "Invalid Gateway Event",
        }
    }
}

} // verus!

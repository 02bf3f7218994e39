use vstd::prelude::*;

verus! {

/// Why a value object refused its input.
#[derive(Debug, Clone, Copy, PartialEq, Eq, Structural)]
pub enum ValidationError {
    InvalidAmount,
    InvalidExpirationDate,
    InvalidEmail,
    InvalidName,
    InvalidDocument,
    InvalidUuid,
}

impl ValidationError {
    /// The human-readable description of the error.
    pub fn message(&self) -> (r: &'static str)
        ensures
            r@ == self.spec_message(),
    {
        match self {
            ValidationError::InvalidAmount => "invalid amount",
            ValidationError::InvalidExpirationDate => "invalid expiration date",
            ValidationError::InvalidEmail => "invalid email",
            ValidationError::InvalidName => "invalid name",
            ValidationError::InvalidDocument => "invalid document",
            ValidationError::InvalidUuid => "invalid uuid",
        }
    }

    pub open spec fn spec_message(&self) -> Seq<char> {
        match self {
            ValidationError::InvalidAmount => "invalid amount"@,
            ValidationError::InvalidExpirationDate => "invalid expiration date"@,
            ValidationError::InvalidEmail => "invalid email"@,
            ValidationError::InvalidName => "invalid name"@,
            ValidationError::InvalidDocument => "invalid document"@,
            ValidationError::InvalidUuid => "invalid uuid"@,
        }
    }
}

} // verus!

use vstd::prelude::*;

use crate::entities::error::DomainError;
pub use crate::value_objects::error::ValidationError;

verus! {

/// Any error of the domain: a value refused, or an operation refused.
#[derive(Debug, Clone, Copy, PartialEq, Eq, Structural)]
pub enum AppError {
    Validation(ValidationError),
    Domain(DomainError),
}

impl AppError {
    /// The description of the underlying error.
    pub open spec fn spec_message(&self) -> Seq<char> {
        match self {
            AppError::Validation(e) => e.spec_message(),
            AppError::Domain(e) => e.spec_message(),
        }
    }

    pub fn message(&self) -> (r: &'static str)
        ensures
            r@ == self.spec_message(),
    {
        match self {
            AppError::Validation(e) => e.message(),
            AppError::Domain(e) => e.message(),
        }
    }
}

impl From<ValidationError> for AppError {
    fn from(value: ValidationError) -> (r: Self)
        ensures
            r == AppError::Validation(value),
    {
        AppError::Validation(value)
    }
}

impl vstd::std_specs::convert::FromSpecImpl<ValidationError> for AppError {
    open spec fn obeys_from_spec() -> bool {
        true
    }

    open spec fn from_spec(v: ValidationError) -> Self {
        AppError::Validation(v)
    }
}

impl From<DomainError> for AppError {
    fn from(value: DomainError) -> (r: Self)
        ensures
            r == AppError::Domain(value),
    {
        AppError::Domain(value)
    }
}

impl vstd::std_specs::convert::FromSpecImpl<DomainError> for AppError {
    open spec fn obeys_from_spec() -> bool {
        true
    }

    open spec fn from_spec(v: DomainError) -> Self {
        AppError::Domain(v)
    }
}

} // verus!

use vstd::prelude::*;

verus! {

/// Where a payment attempt stands, as its gateway attempts decide it.
#[derive(Debug, PartialEq, Eq, Structural)]
pub enum PaymentAttemptStatus {
    Pending,
    Paid,
    Failed,
}

/// Where a payment intent stands.
#[derive(Debug, PartialEq, Eq, Copy, Clone, Structural)]
pub enum PaymentIntentStatus {
    Pending,
    Paid,
    Failed,
    Cancelled,
}

} // verus!

use vstd::prelude::*;

verus! {

/// Where a payment stands overall.
pub enum IntentStatus {
    Pending,
    Paid,
    Failed,
    Refunded,
    PendingRefund,
    /// The gateway's answer maps to no known state.
    InvalidResponse,
}

} // verus!

use vstd::prelude::*;

verus! {

/// What a gateway reports about a card charge.
#[derive(Debug, Clone, Copy, PartialEq, Eq, Structural)]
pub enum CardGatewayEvent {
    Paid,
    Cancelled,
    Failed,
    Rejected,
}

} // verus!

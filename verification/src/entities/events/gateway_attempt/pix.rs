use vstd::prelude::*;

verus! {

/// What a gateway reports about a Pix charge.
#[derive(Debug, Clone, Copy, PartialEq, Eq, Structural)]
pub enum PixGatewayEvent {
    Paid,
    Failed,
    Cancelled,
    Expired,
}

} // verus!

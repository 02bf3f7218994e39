use vstd::prelude::*;

verus! {

/// What a gateway reports about a boleto.
#[derive(Debug, Clone, Copy, PartialEq, Eq, Structural)]
pub enum BoletoGatewayEvent {
    Paid,
    Cancelled,
    Expired,
    Failed,
}

} // verus!

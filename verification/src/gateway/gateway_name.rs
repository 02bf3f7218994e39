use vstd::prelude::*;

verus! {

/// The payment gateways the service talks to.
#[derive(Debug, Clone, Copy, PartialEq, Eq, Structural)]
pub enum GatewayName {
    MercadoPago,
    Pagarme,
    Stripe,
}

} // verus!

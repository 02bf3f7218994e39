use vstd::prelude::*;

verus! {

/// The ways of paying that a gateway offers.
#[derive(Debug, Clone, Copy, PartialEq, Eq, Structural)]
pub struct GatewayCapabilities {
    pub pix: bool,
    pub card: bool,
    pub boleto: bool,
}

} // verus!

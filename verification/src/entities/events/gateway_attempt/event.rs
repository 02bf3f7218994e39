use vstd::prelude::*;

use crate::entities::events::gateway_attempt::{
    boleto::BoletoGatewayEvent, card::CardGatewayEvent, pix::PixGatewayEvent,
};

verus! {

/// A notification from a gateway about one of its attempts.
#[derive(Debug, Clone, Copy, PartialEq, Eq, Structural)]
pub enum GatewayEvent {
    Pix(PixGatewayEvent),
    Card(CardGatewayEvent),
    Boleto(BoletoGatewayEvent),
}

} // verus!

use vstd::prelude::*;

use crate::entities::gateway_attempt::{
    boleto::BoletoGatewayAttempt, card::CardGatewayAttempt, lifecycle::AttemptLifecycle,
    pix::PixGatewayAttempt,
};

verus! {

/// An attempt at one gateway, of whichever way of paying.
pub enum GatewayAttempt {
    Pix(PixGatewayAttempt),
    Card(CardGatewayAttempt),
    Boleto(BoletoGatewayAttempt),
}

impl AttemptLifecycle for GatewayAttempt {
    open spec fn spec_is_running(&self) -> bool {
        match self {
            GatewayAttempt::Pix(a) => a.spec_is_running(),
            GatewayAttempt::Card(a) => a.spec_is_running(),
            GatewayAttempt::Boleto(a) => a.spec_is_running(),
        }
    }

    open spec fn spec_is_success(&self) -> bool {
        match self {
            GatewayAttempt::Pix(a) => a.spec_is_success(),
            GatewayAttempt::Card(a) => a.spec_is_success(),
            GatewayAttempt::Boleto(a) => a.spec_is_success(),
        }
    }

    open spec fn spec_is_failure(&self) -> bool {
        match self {
            GatewayAttempt::Pix(a) => a.spec_is_failure(),
            GatewayAttempt::Card(a) => a.spec_is_failure(),
            GatewayAttempt::Boleto(a) => a.spec_is_failure(),
        }
    }

    fn is_running(&self) -> (r: bool) {
        match self {
            GatewayAttempt::Pix(a) => a.is_running(),
            GatewayAttempt::Card(a) => a.is_running(),
            GatewayAttempt::Boleto(a) => a.is_running(),
        }
    }

    fn is_success(&self) -> (r: bool) {
        match self {
            GatewayAttempt::Pix(a) => a.is_success(),
            GatewayAttempt::Card(a) => a.is_success(),
            GatewayAttempt::Boleto(a) => a.is_success(),
        }
    }

    fn is_failure(&self) -> (r: bool) {
        match self {
            GatewayAttempt::Pix(a) => a.is_failure(),
            GatewayAttempt::Card(a) => a.is_failure(),
            GatewayAttempt::Boleto(a) => a.is_failure(),
        }
    }
}

} // verus!

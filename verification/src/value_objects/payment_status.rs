use vstd::prelude::*;

use crate::gateway::gateway_name::GatewayName;
use crate::text::{chars_of, spells};

verus! {

/// Where a payment stands at a gateway, mapped from the gateway's own
/// vocabulary.
#[derive(Debug, Clone, Copy, PartialEq, Eq, Structural)]
pub enum PaymentStatus {
    Pending,
    Paid,
    Failed,
    Refunded,
    PendingRefund,
    /// A Pix charge that expired unpaid.
    Expired,
    /// The gateway's answer maps to no known state.
    InvalidResponse,
}

/// The state that a Mercado Pago payment status names.
pub open spec fn mercado_pago_status(status: Seq<char>) -> PaymentStatus {
    if status == "approved"@ {
        PaymentStatus::Paid
    } else if status == "action_required"@ || status == "pending"@ || status == "in_process"@ {
        PaymentStatus::Pending
    } else if status == "rejected"@ || status == "cancelled"@ || status == "charged_back"@ {
        PaymentStatus::Failed
    } else if status == "refunded"@ {
        PaymentStatus::Refunded
    } else if status == "expired"@ {
        PaymentStatus::Expired
    } else {
        PaymentStatus::InvalidResponse
    }
}

/// The state that a Pagar.me payment status names.
pub open spec fn pagarme_status(status: Seq<char>) -> PaymentStatus {
    if status == "waiting_payment"@ {
        PaymentStatus::Pending
    } else if status == "paid"@ {
        PaymentStatus::Paid
    } else if status == "failed"@ || status == "with_error"@ {
        PaymentStatus::Failed
    } else if status == "refunded"@ {
        PaymentStatus::Refunded
    } else if status == "pending_refund"@ {
        PaymentStatus::PendingRefund
    } else {
        PaymentStatus::InvalidResponse
    }
}

/// The state that `gateway`'s status text `status` names, for the gateways
/// whose vocabulary is mapped.
pub open spec fn gateway_status(gateway: GatewayName, status: Seq<char>) -> PaymentStatus {
    match gateway {
        GatewayName::MercadoPago => mercado_pago_status(status),
        _ => pagarme_status(status),
    }
}

impl PaymentStatus {
    /// Maps the status text of a gateway's answer. Mercado Pago's and
    /// Pagar.me's vocabularies are mapped; Stripe's has no mapping yet.
    pub fn from_gateway(gateway: GatewayName, status: &str) -> (r: Self)
        requires
            gateway != GatewayName::Stripe,
        ensures
            r == gateway_status(gateway, status@),
            gateway == GatewayName::MercadoPago ==> r == mercado_pago_status(status@),
            gateway == GatewayName::Pagarme ==> r == pagarme_status(status@),
    {
        match gateway {
            GatewayName::MercadoPago => Self::from_mercado_pago(status),
            GatewayName::Pagarme => Self::from_pagarme(status),
            GatewayName::Stripe => {
                // no mapping exists for this gateway; the precondition keeps it out
                proof {
                    assert(false);
                }
                Self::InvalidResponse
            },
        }
    }

    fn from_pagarme(status: &str) -> (r: Self)
        ensures
            r == pagarme_status(status@),
    {
        let s = chars_of(status);
        if spells(&s, "waiting_payment") {
            Self::Pending
        } else if spells(&s, "paid") {
            Self::Paid
        } else if spells(&s, "failed") || spells(&s, "with_error") {
            Self::Failed
        } else if spells(&s, "refunded") {
            Self::Refunded
        } else if spells(&s, "pending_refund") {
            Self::PendingRefund
        } else {
            Self::InvalidResponse
        }
    }

    fn from_mercado_pago(status: &str) -> (r: Self)
        ensures
            r == mercado_pago_status(status@),
    {
        let s = chars_of(status);
        if spells(&s, "approved") {
            Self::Paid
        } else if spells(&s, "action_required") || spells(&s, "pending") || spells(&s, "in_process") {
            Self::Pending
        } else if spells(&s, "rejected") || spells(&s, "cancelled") || spells(&s, "charged_back") {
            Self::Failed
        } else if spells(&s, "refunded") {
            Self::Refunded
        } else if spells(&s, "expired") {
            Self::Expired
        } else {
            Self::InvalidResponse
        }
    }
}

} // verus!

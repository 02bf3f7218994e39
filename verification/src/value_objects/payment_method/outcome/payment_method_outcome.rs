use vstd::prelude::*;

use crate::value_objects::payment_method::outcome::{
    boleto::BoletoData, card::CardData, pix::PixData,
};

verus! {

/// What a gateway handed back for the chosen way of paying.
pub enum PaymentMethodOutcome {
    Pix(PixData),
    Card(CardData),
    Boleto(BoletoData),
}

} // verus!

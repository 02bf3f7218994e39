use vstd::prelude::*;

use crate::value_objects::payment_method::instruction::{
    boleto::BoletoData, card::CardData, pix::PixData,
};

verus! {

/// The way a payer chose to pay.
pub enum PaymentMethod {
    Pix(PixData),
    Card(CardData),
    Boleto(BoletoData),
}

} // verus!

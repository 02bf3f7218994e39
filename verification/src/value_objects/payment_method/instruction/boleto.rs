use vstd::prelude::*;

verus! {

/// What a payer asks for when choosing to pay by boleto.
pub struct BoletoData;

impl BoletoData {
    pub fn new() -> Self {
        BoletoData
    }
}

} // verus!

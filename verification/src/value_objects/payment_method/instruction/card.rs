use vstd::prelude::*;

verus! {

/// What a payer asks for when choosing to pay by card.
pub struct CardData;

impl CardData {
    pub fn new() -> Self {
        CardData
    }
}

} // verus!

use vstd::prelude::*;

verus! {

/// What a gateway hands back for a card payment.
pub struct CardData;

impl CardData {
    pub fn new() -> Self {
        CardData
    }
}

} // verus!

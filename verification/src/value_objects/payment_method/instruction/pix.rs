use vstd::prelude::*;

verus! {

/// What a payer asks for when choosing to pay by pix.
pub struct PixData;

impl PixData {
    pub fn new() -> Self {
        PixData
    }
}

} // verus!

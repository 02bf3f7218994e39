use vstd::prelude::*;

verus! {

#[allow(dead_code)]
enum PixMethodId {
    Pix,
}

/// Card brands.
#[allow(dead_code)]
pub enum CardKind {
    Visa,
    Mastercard,
    Elo,
    Amex,
    Hipercard,
    Unknown,
}

#[allow(dead_code)]
enum CardMethodId {
    Credit,
    Debit,
}

#[allow(dead_code)]
enum BoletoMethodId {
    Boleto,
}

} // verus!

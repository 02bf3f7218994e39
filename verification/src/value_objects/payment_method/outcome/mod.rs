pub mod boleto;
pub mod card;
pub mod payment_method_outcome;
pub mod pix;

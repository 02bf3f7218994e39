pub mod attempt;
pub mod boleto;
pub mod card;
pub mod lifecycle;
pub mod pix;

pub use attempt::GatewayAttempt;

pub mod boleto;
pub mod card;
pub mod conflict;
pub mod event_sequences;
pub mod gateway_attempt;
pub mod pix;

pub use boleto::{BoletoAttemptStatus, BoletoGatewayAttempt};
pub use card::{CardAttemptStatus, CardGatewayAttempt};
pub use conflict::{EventOutcome, GatewayAttemptConflict, GatewayAttemptEventResult};

pub use pix::{PixAttemptStatus, PixGatewayAttempt};
pub use gateway_attempt::GatewayAttempt;
pub mod laws;

pub mod gateway_attempt;
pub mod payment_attempt;
pub mod payment_attempt_laws;
pub mod payment_intent;
pub mod status;

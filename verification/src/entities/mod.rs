pub mod contracts;
pub mod error;
pub mod events;
pub mod gateway_attempt;
pub mod models;
pub mod payment_attempt;
pub mod payment_intent;

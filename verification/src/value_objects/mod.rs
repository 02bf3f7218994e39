pub mod amount;
pub mod error;
pub mod payer;
pub mod ids;
pub mod expiration;
pub mod payment_method;
pub mod intent_status;
pub mod payment_status;
pub mod laws;

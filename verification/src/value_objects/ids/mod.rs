pub mod gateway_attempt_id;
pub mod payment_attempt_id;
pub mod payment_intent_id;
pub mod uuid_bits;

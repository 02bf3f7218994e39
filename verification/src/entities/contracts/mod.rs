pub mod gateway_attempt_event;
pub mod gateway_attempt_rules;

pub use gateway_attempt_event::{GatewayAttemptEventRouter, GatewayEventHandler};
pub use gateway_attempt_rules::{GatewayAttemptActions, GatewayAttemptState};

pub mod gateway_attempt;
pub mod payment_attempt;
pub mod payment_intent;

pub use gateway_attempt::{BoletoGatewayEvent, CardGatewayEvent, GatewayEvent, PixGatewayEvent};
pub use payment_attempt::PaymentAttemptEvent;
pub use payment_intent::PaymentIntentEvent;

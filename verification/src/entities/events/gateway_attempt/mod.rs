pub mod boleto;
pub mod card;
pub mod event;
pub mod pix;

pub use boleto::BoletoGatewayEvent;
pub use card::CardGatewayEvent;
pub use event::GatewayEvent;
pub use pix::PixGatewayEvent;

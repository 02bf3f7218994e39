pub mod gateway_capabilities;
pub mod gateway_info;
pub mod gateway_name;

use vstd::prelude::*;

use crate::gateway::{gateway_capabilities::GatewayCapabilities, gateway_name::GatewayName};

verus! {

/// What the service knows of a gateway: its name, what it offers, and
/// where and in which version its API answers.
#[allow(dead_code)]
pub struct GatewayInfo {
    pub name: GatewayName,
    pub capabilities: GatewayCapabilities,
    pub base_url: &'static str,
    pub api_version: &'static str,
}

} // verus!

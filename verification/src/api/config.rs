//! Server configuration record. Loading it from the environment is the
//! server binary's job; these are the plain values it hands around.

use vstd::prelude::*;

verus! {

#[derive(Debug, Clone)]
pub struct ServerConfig {
    pub port: u16,
    pub cors_allowed_origins: Vec<String>,
}

#[derive(Debug, Clone)]
pub struct EvmConfig {
    pub rpc_url: String,
    pub hook_address: String,
    pub chain_id: u64,
}

#[derive(Debug, Clone)]
pub struct SuiConfig {
    pub rpc_url: String,
    pub package_id: Option<String>,
}

#[derive(Debug, Clone)]
pub struct BridgeConfig {
    pub cctp_api_url: String,
    pub wormhole_api_url: String,
    pub lifi_api_url: Option<String>,
}

#[derive(Debug, Clone)]
pub struct Config {
    pub rust_env: String,
    pub is_production: bool,
    pub server: ServerConfig,
    pub evm: EvmConfig,
    pub sui: SuiConfig,
    pub bridge: BridgeConfig,
}

} // verus!

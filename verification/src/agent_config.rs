//! Agent configuration (non-custodial: no private keys).

use vstd::prelude::*;

use crate::ingest::EvmConfig;

verus! {

/// Sui-side configuration for the destination-chain collaborators.
#[derive(Debug, Clone)]
pub struct SuiConfig {
    pub rpc_url: String,
    pub scallop_package_id: Option<String>,
    pub navi_package_id: Option<String>,
}

impl SuiConfig {
    /// Testnet defaults, no protocol packages configured.
    pub fn testnet() -> (r: Self)
        ensures
            r.rpc_url@ == "https://fullnode.testnet.sui.io:443"@,
            r.scallop_package_id is None,
            r.navi_package_id is None,
    {
        SuiConfig {
            rpc_url: String::from_str("https://fullnode.testnet.sui.io:443"),
            scallop_package_id: None,
            navi_package_id: None,
        }
    }

    pub fn with_scallop(self, package_id: String) -> (r: Self)
        ensures
            r == (SuiConfig { scallop_package_id: Some(package_id), ..self }),
    {
        SuiConfig { scallop_package_id: Some(package_id), ..self }
    }

    pub fn with_navi(self, package_id: String) -> (r: Self)
        ensures
            r == (SuiConfig { navi_package_id: Some(package_id), ..self }),
    {
        SuiConfig { navi_package_id: Some(package_id), ..self }
    }
}

/// Agent configuration: the source chain to watch and the destination-side
/// endpoints. Loading it from the environment is the caller's job; the
/// orchestrator only reads it.
#[derive(Debug, Clone)]
pub struct AgentConfig {
    pub evm: EvmConfig,
    pub sui: SuiConfig,
}

/// Configuration errors.
#[derive(Debug, Clone, PartialEq, Eq)]
pub enum ConfigError {
    /// A required environment variable is missing.
    Missing(&'static str),
}

} // verus!

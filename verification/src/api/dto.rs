//! Request and response bodies of the API surface.

use vstd::prelude::*;

use crate::intent::{Direction, Intent};
use crate::strategy::YieldStrategy;

verus! {

fn clone_opt(o: &Option<String>) -> (r: Option<String>)
    ensures
        r == *o,
{
    match o {
        Some(s) => Some(s.clone()),
        None => None,
    }
}

/// Response body for one intent.
#[derive(Debug, Clone)]
pub struct IntentResponse {
    pub id: String,
    pub direction: String,
    pub status: String,
    pub source_address: String,
    pub dest_address: String,
    pub evm_chain: String,
    pub input_token: String,
    pub input_amount: String,
    pub strategy: Option<String>,
    pub bridge_nonce: Option<String>,
    pub created_at: i64,
}

impl IntentResponse {
    /// Render an intent for the API: names for the direction, status, chain
    /// and strategy, every other field carried through unchanged.
    pub fn from_intent(intent: &Intent) -> (r: Self)
        ensures
            r.id == intent.id,
            r.direction@ == intent.direction.as_str_spec(),
            r.status@ == intent.status.as_str_spec(),
            r.source_address == intent.source_address,
            r.dest_address == intent.dest_address,
            r.evm_chain@ == intent.evm_chain.as_str_spec(),
            r.input_token == intent.input_token,
            r.input_amount == intent.input_amount,
            intent.strategy matches Some(s) ==> (r.strategy matches Some(n) && n@
                == s.name_spec()),
            intent.strategy is None ==> r.strategy is None,
            r.bridge_nonce == intent.bridge_nonce,
            r.created_at == intent.created_at,
    {
        IntentResponse {
            id: intent.id.clone(),
            direction: String::from_str(intent.direction.as_str()),
            status: String::from_str(intent.status.as_str()),
            source_address: intent.source_address.clone(),
            dest_address: intent.dest_address.clone(),
            evm_chain: String::from_str(intent.evm_chain.as_str()),
            input_token: intent.input_token.clone(),
            input_amount: intent.input_amount.clone(),
            strategy: match &intent.strategy {
                Some(s) => Some(String::from_str(s.name())),
                None => None,
            },
            bridge_nonce: clone_opt(&intent.bridge_nonce),
            created_at: intent.created_at,
        }
    }
}

/// List response wrapper.
#[derive(Debug, Clone)]
pub struct IntentListResponse {
    pub intents: Vec<IntentResponse>,
    pub total: usize,
}

/// Status response with the per-step transaction detail.
#[derive(Debug, Clone)]
pub struct IntentStatusResponse {
    pub id: String,
    pub status: String,
    pub swap_tx_hash: Option<String>,
    pub bridge_tx_hash: Option<String>,
    pub bridge_nonce: Option<String>,
    pub dest_tx_hash: Option<String>,
    pub error_message: Option<String>,
}

impl IntentStatusResponse {
    /// Render an intent's progress detail, every field carried through
    /// unchanged.
    pub fn from_intent(intent: &Intent) -> (r: Self)
        ensures
            r.id == intent.id,
            r.status@ == intent.status.as_str_spec(),
            r.swap_tx_hash == intent.swap_tx_hash,
            r.bridge_tx_hash == intent.bridge_tx_hash,
            r.bridge_nonce == intent.bridge_nonce,
            r.dest_tx_hash == intent.dest_tx_hash,
            r.error_message == intent.error_message,
    {
        IntentStatusResponse {
            id: intent.id.clone(),
            status: String::from_str(intent.status.as_str()),
            swap_tx_hash: clone_opt(&intent.swap_tx_hash),
            bridge_tx_hash: clone_opt(&intent.bridge_tx_hash),
            bridge_nonce: clone_opt(&intent.bridge_nonce),
            dest_tx_hash: clone_opt(&intent.dest_tx_hash),
            error_message: clone_opt(&intent.error_message),
        }
    }
}

/// Chain info response body.
#[derive(Debug, Clone)]
pub struct ChainInfo {
    pub id: String,
    pub name: String,
    pub chain_type: String,
    pub chain_id: u64,
}

/// Chains list response body.
#[derive(Debug, Clone)]
pub struct ChainsResponse {
    pub chains: Vec<ChainInfo>,
}

/// Strategy info response body.
#[derive(Debug, Clone)]
pub struct StrategyResponse {
    pub id: u8,
    pub name: String,
    pub protocol: String,
    pub asset: String,
    pub enabled: bool,
}

impl StrategyResponse {
    /// Render a strategy for the API, enabled by default.
    pub fn from_strategy(strategy: YieldStrategy) -> (r: Self)
        ensures
            r.id == strategy.id_spec(),
            r.name@ == strategy.name_spec(),
            r.protocol@ == strategy.protocol_spec(),
            r.asset@ == strategy.asset_spec(),
            r.enabled == true,
    {
        StrategyResponse {
            id: strategy.id(),
            name: String::from_str(strategy.name()),
            protocol: String::from_str(strategy.protocol()),
            asset: String::from_str(strategy.asset()),
            enabled: true,
        }
    }
}

/// Bridge status response body.
#[derive(Debug, Clone)]
pub struct BridgeStatusResponse {
    pub intent_id: String,
    pub status: String,
    pub source_chain: String,
    pub dest_chain: String,
    pub amount: String,
    pub nonce: Option<String>,
}

impl BridgeStatusResponse {
    /// Render an intent's bridge progress: source and destination chains by
    /// direction, the bridged amount (`"0"` while unknown), and the nonce.
    pub fn from_intent(intent: &Intent) -> (r: Self)
        ensures
            r.intent_id == intent.id,
            r.status@ == intent.status.as_str_spec(),
            intent.direction is EvmToSui ==> r.source_chain@ == intent.evm_chain.as_str_spec()
                && r.dest_chain@ == "sui"@,
            intent.direction is SuiToEvm ==> r.source_chain@ == "sui"@ && r.dest_chain@
                == intent.evm_chain.as_str_spec(),
            intent.usdc_amount matches Some(a) ==> r.amount == a,
            intent.usdc_amount is None ==> r.amount@ == "0"@,
            r.nonce == intent.bridge_nonce,
    {
        let (source_chain, dest_chain) = match intent.direction {
            Direction::EvmToSui => (
                String::from_str(intent.evm_chain.as_str()),
                String::from_str("sui"),
            ),
            Direction::SuiToEvm => (
                String::from_str("sui"),
                String::from_str(intent.evm_chain.as_str()),
            ),
        };
        BridgeStatusResponse {
            intent_id: intent.id.clone(),
            status: String::from_str(intent.status.as_str()),
            source_chain,
            dest_chain,
            amount: match &intent.usdc_amount {
                Some(a) => a.clone(),
                None => String::from_str("0"),
            },
            nonce: clone_opt(&intent.bridge_nonce),
        }
    }
}

/// The chains the API reports as supported.
pub fn list_chains() -> (r: ChainsResponse)
    ensures
        r.chains@.len() == 6,
        r.chains@[0].id@ == "base"@ && r.chains@[0].name@ == "Base"@ && r.chains@[0].chain_type@
            == "evm"@ && r.chains@[0].chain_id == 8453,
        r.chains@[1].id@ == "base_sepolia"@ && r.chains@[1].name@ == "Base Sepolia"@
            && r.chains@[1].chain_type@ == "evm"@ && r.chains@[1].chain_id == 84532,
        r.chains@[2].id@ == "ethereum"@ && r.chains@[2].name@ == "Ethereum"@
            && r.chains@[2].chain_type@ == "evm"@ && r.chains@[2].chain_id == 1,
        r.chains@[3].id@ == "arbitrum"@ && r.chains@[3].name@ == "Arbitrum"@
            && r.chains@[3].chain_type@ == "evm"@ && r.chains@[3].chain_id == 42161,
        r.chains@[4].id@ == "sui"@ && r.chains@[4].name@ == "Sui"@ && r.chains@[4].chain_type@
            == "sui"@ && r.chains@[4].chain_id == 0,
        r.chains@[5].id@ == "sui_testnet"@ && r.chains@[5].name@ == "Sui Testnet"@
            && r.chains@[5].chain_type@ == "sui"@ && r.chains@[5].chain_id == 0,
{
    let mut chains: Vec<ChainInfo> = Vec::new();
    chains.push(
        ChainInfo {
            id: String::from_str("base"),
            name: String::from_str("Base"),
            chain_type: String::from_str("evm"),
            chain_id: crate::chain::EvmChain::Base.chain_id(),
        },
    );
    chains.push(
        ChainInfo {
            id: String::from_str("base_sepolia"),
            name: String::from_str("Base Sepolia"),
            chain_type: String::from_str("evm"),
            chain_id: crate::chain::EvmChain::BaseSepolia.chain_id(),
        },
    );
    chains.push(
        ChainInfo {
            id: String::from_str("ethereum"),
            name: String::from_str("Ethereum"),
            chain_type: String::from_str("evm"),
            chain_id: crate::chain::EvmChain::Ethereum.chain_id(),
        },
    );
    chains.push(
        ChainInfo {
            id: String::from_str("arbitrum"),
            name: String::from_str("Arbitrum"),
            chain_type: String::from_str("evm"),
            chain_id: crate::chain::EvmChain::Arbitrum.chain_id(),
        },
    );
    chains.push(
        ChainInfo {
            id: String::from_str("sui"),
            name: String::from_str("Sui"),
            chain_type: String::from_str("sui"),
            chain_id: 0,
        },
    );
    chains.push(
        ChainInfo {
            id: String::from_str("sui_testnet"),
            name: String::from_str("Sui Testnet"),
            chain_type: String::from_str("sui"),
            chain_id: 0,
        },
    );
    ChainsResponse { chains }
}

/// The named yield strategies, all enabled, in id order.
pub fn list_strategies() -> (r: Vec<StrategyResponse>)
    ensures
        r@.len() == 4,
        forall|i: int|
            0 <= i < 4 ==> {
                let s = YieldStrategy::from_id_spec((i + 1) as u8);
                &&& (#[trigger] r@[i]).id == i + 1
                &&& r@[i].name@ == s.name_spec()
                &&& r@[i].protocol@ == s.protocol_spec()
                &&& r@[i].asset@ == s.asset_spec()
                &&& r@[i].enabled
            },
{
    let mut strategies: Vec<StrategyResponse> = Vec::new();
    strategies.push(StrategyResponse::from_strategy(YieldStrategy::from_id(1)));
    strategies.push(StrategyResponse::from_strategy(YieldStrategy::from_id(2)));
    strategies.push(StrategyResponse::from_strategy(YieldStrategy::from_id(3)));
    strategies.push(StrategyResponse::from_strategy(YieldStrategy::from_id(4)));
    strategies
}

/// Request body for a Sui-to-EVM bridge.
#[derive(Debug, Clone)]
pub struct SuiToEvmBridgeRequest {
    /// Optional intent id (for tracking; manual bridges have none).
    pub intent_id: Option<String>,
    /// Sender's Sui address.
    pub sender: String,
    /// USDC amount to bridge.
    pub amount: String,
    /// Destination EVM address.
    pub evm_destination: String,
}

/// Attestation poll request body.
#[derive(Debug, Clone)]
pub struct AttestationRequest {
    pub nonce: String,
    pub max_attempts: Option<u32>,
    pub interval_secs: Option<u64>,
}

/// Attestation response body.
#[derive(Debug, Clone)]
pub struct AttestationResponse {
    pub nonce: String,
    pub attestation: Option<String>,
    pub status: String,
    pub message: String,
}

/// Request body for bridge initiation.
#[derive(Debug, Clone)]
pub struct BridgeInitRequest {
    pub intent_id: String,
    pub source_chain: String,
    pub dest_chain: String,
    pub amount: String,
    pub token: String,
}

/// Chat request body.
#[derive(Debug, Clone)]
pub struct ChatRequest {
    pub message: String,
}

/// Chat response body.
#[derive(Debug, Clone)]
pub struct ChatResponse {
    pub reply: String,
    pub intent: Option<IntentParams>,
}

/// Intent parameters a chat reply may propose.
#[derive(Debug, Clone)]
pub struct IntentParams {
    pub action: String,
    pub dest_chain: String,
    pub protocol: String,
    pub sui_dest: String,
    pub strategy_id: u8,
}

/// Quote query parameters.
#[derive(Debug, Clone)]
pub struct QuoteQuery {
    pub input_token: String,
    pub output_token: String,
    pub amount: String,
    pub chain_id: Option<u64>,
}

/// Chain health response body.
#[derive(Debug, Clone)]
pub struct ChainStatus {
    pub chain_id: String,
    pub status: String,
    pub block_height: Option<u64>,
    pub latency_ms: Option<u64>,
}

} // verus!

//! Bridge aggregator data model: routes, estimates, costs and statuses as
//! the aggregator's API reports them. The HTTP client that fills these
//! records lives outside this crate.

use vstd::prelude::*;

verus! {

/// Bridge route information.
#[derive(Debug, Clone)]
pub struct BridgeRoute {
    pub id: String,
    pub from_chain_id: u64,
    /// Destination chain id; Sui uses string ids.
    pub to_chain_id: String,
    pub from_token: String,
    pub to_token: String,
    pub from_amount: String,
    pub to_amount: String,
    pub to_amount_min: String,
    pub estimated_gas: String,
    pub estimated_time_seconds: u64,
    pub bridge_name: String,
    pub steps: Vec<BridgeStep>,
}

/// Individual step in a bridge route.
#[derive(Debug, Clone)]
pub struct BridgeStep {
    /// "swap", "bridge" or "deposit".
    pub step_type: String,
    /// The tool that performs the step.
    pub tool: String,
    pub from_token: String,
    pub to_token: String,
    pub from_amount: String,
    pub to_amount: String,
}

#[derive(Debug, Clone)]
pub struct QuoteEstimate {
    pub from_amount: String,
    pub to_amount: String,
    pub to_amount_min: String,
    pub approval_address: String,
    pub execution_duration: u64,
    pub fee_costs: Vec<FeeCost>,
    pub gas_costs: Vec<GasCost>,
}

/// Token information as the aggregator reports it.
#[derive(Debug, Clone)]
pub struct TokenInfo {
    pub address: String,
    pub symbol: String,
    pub decimals: u8,
    pub chain_id: u64,
    pub name: String,
}

#[derive(Debug, Clone)]
pub struct FeeCost {
    pub name: String,
    pub percentage: String,
    pub token: TokenInfo,
    pub amount: String,
}

#[derive(Debug, Clone)]
pub struct GasCost {
    pub kind: String,
    pub estimate: String,
    pub limit: String,
    pub amount: String,
    pub token: TokenInfo,
}

#[derive(Debug, Clone)]
pub struct TransactionRequest {
    pub to: String,
    pub data: String,
    pub value: String,
    pub gas_limit: String,
    pub gas_price: String,
    pub chain_id: u64,
}

/// Bridge status check response.
#[derive(Debug, Clone)]
pub struct BridgeStatus {
    pub transaction_id: String,
    pub sending: TransactionStatus,
    pub receiving: Option<TransactionStatus>,
    /// "PENDING", "DONE" or "FAILED".
    pub status: String,
    pub substatus: Option<String>,
}

#[derive(Debug, Clone)]
pub struct TransactionStatus {
    pub tx_hash: String,
    pub chain_id: u64,
    pub amount: String,
    pub token: TokenInfo,
}

/// Chain info as the aggregator reports it.
#[derive(Debug, Clone)]
pub struct ChainInfo {
    pub id: u64,
    pub key: String,
    pub name: String,
    pub logo_uri: Option<String>,
    pub native_token: TokenInfo,
}

/// Aggregator API errors.
#[derive(Debug, Clone, PartialEq, Eq)]
pub enum LiFiError {
    /// The request could not be made.
    Request(String),
    /// The aggregator answered with a non-success status.
    Api { status: u16, message: String },
    /// The aggregator's answer could not be parsed.
    Parse(String),
    /// No route found for the pair.
    NoRoute,
    /// A bridge transaction failed.
    BridgeFailed(String),
}

} // verus!

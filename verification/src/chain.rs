//! Supported networks and common tokens.

use vstd::prelude::*;

verus! {

/// Supported EVM chains (source chains).
#[derive(Debug, Clone, Copy, PartialEq, Eq, Hash, Structural)]
pub enum EvmChain {
    /// Ethereum Mainnet
    Ethereum,
    /// Base (L2)
    Base,
    /// Arbitrum One
    Arbitrum,
    /// Optimism
    Optimism,
    /// Base Sepolia (Testnet)
    BaseSepolia,
    /// Sepolia (Testnet)
    Sepolia,
}

impl EvmChain {
    pub open spec fn chain_id_spec(self) -> u64 {
        match self {
            EvmChain::Ethereum => 1,
            EvmChain::Base => 8453,
            EvmChain::Arbitrum => 42161,
            EvmChain::Optimism => 10,
            EvmChain::BaseSepolia => 84532,
            EvmChain::Sepolia => 11155111,
        }
    }

    /// Get the chain ID for this EVM chain.
    pub fn chain_id(&self) -> (r: u64)
        ensures
            r == self.chain_id_spec(),
    {
        match self {
            EvmChain::Ethereum => 1,
            EvmChain::Base => 8453,
            EvmChain::Arbitrum => 42161,
            EvmChain::Optimism => 10,
            EvmChain::BaseSepolia => 84532,
            EvmChain::Sepolia => 11155111,
        }
    }

    pub open spec fn lifi_chain_key_spec(self) -> Seq<char> {
        match self {
            EvmChain::Ethereum => "ETH"@,
            EvmChain::Base => "BAS"@,
            EvmChain::Arbitrum => "ARB"@,
            EvmChain::Optimism => "OPT"@,
            EvmChain::BaseSepolia => "BAS"@,
            EvmChain::Sepolia => "ETH"@,
        }
    }

    /// Get the aggregator's chain key for this chain.
    pub fn lifi_chain_key(&self) -> (r: &'static str)
        ensures
            r@ == self.lifi_chain_key_spec(),
    {
        match self {
            EvmChain::Ethereum => "ETH",
            EvmChain::Base => "BAS",
            EvmChain::Arbitrum => "ARB",
            EvmChain::Optimism => "OPT",
            EvmChain::BaseSepolia => "BAS",
            EvmChain::Sepolia => "ETH",
        }
    }

    pub open spec fn as_str_spec(self) -> Seq<char> {
        match self {
            EvmChain::Ethereum => "Ethereum"@,
            EvmChain::Base => "Base"@,
            EvmChain::Arbitrum => "Arbitrum"@,
            EvmChain::Optimism => "Optimism"@,
            EvmChain::BaseSepolia => "BaseSepolia"@,
            EvmChain::Sepolia => "Sepolia"@,
        }
    }

    /// Name of the chain, as surfaced over the API.
    pub fn as_str(&self) -> (r: &'static str)
        ensures
            r@ == self.as_str_spec(),
    {
        match self {
            EvmChain::Ethereum => "Ethereum",
            EvmChain::Base => "Base",
            EvmChain::Arbitrum => "Arbitrum",
            EvmChain::Optimism => "Optimism",
            EvmChain::BaseSepolia => "BaseSepolia",
            EvmChain::Sepolia => "Sepolia",
        }
    }

    /// Check if this is a testnet.
    pub fn is_testnet(&self) -> (r: bool)
        ensures
            r == (self is BaseSepolia || self is Sepolia),
    {
        matches!(self, EvmChain::BaseSepolia | EvmChain::Sepolia)
    }
}

/// Sui network variants.
#[derive(Debug, Clone, Copy, PartialEq, Eq, Hash, Structural)]
pub enum SuiNetwork {
    Mainnet,
    Testnet,
    Devnet,
}

impl SuiNetwork {
    pub open spec fn rpc_url_spec(self) -> Seq<char> {
        match self {
            SuiNetwork::Mainnet => "https://fullnode.mainnet.sui.io:443"@,
            SuiNetwork::Testnet => "https://fullnode.testnet.sui.io:443"@,
            SuiNetwork::Devnet => "https://fullnode.devnet.sui.io:443"@,
        }
    }

    /// Get the RPC URL for this Sui network.
    pub fn rpc_url(&self) -> (r: &'static str)
        ensures
            r@ == self.rpc_url_spec(),
    {
        match self {
            SuiNetwork::Mainnet => "https://fullnode.mainnet.sui.io:443",
            SuiNetwork::Testnet => "https://fullnode.testnet.sui.io:443",
            SuiNetwork::Devnet => "https://fullnode.devnet.sui.io:443",
        }
    }
}

/// Token information.
#[derive(Debug, Clone)]
pub struct TokenInfo {
    pub symbol: String,
    pub address: String,
    pub decimals: u8,
    pub chain: EvmChain,
}

/// USDC on Base Sepolia.
pub fn usdc_base_sepolia() -> (r: TokenInfo)
    ensures
        r.symbol@ == "USDC"@,
        r.address@ == "0x036CbD53842c5426634e7929541eC2318f3dCF7e"@,
        r.decimals == 6,
        r.chain is BaseSepolia,
{
    TokenInfo {
        symbol: String::from_str("USDC"),
        address: String::from_str("0x036CbD53842c5426634e7929541eC2318f3dCF7e"),
        decimals: 6,
        chain: EvmChain::BaseSepolia,
    }
}

/// WETH on Base Sepolia.
pub fn weth_base_sepolia() -> (r: TokenInfo)
    ensures
        r.symbol@ == "WETH"@,
        r.address@ == "0x4200000000000000000000000000000000000006"@,
        r.decimals == 18,
        r.chain is BaseSepolia,
{
    TokenInfo {
        symbol: String::from_str("WETH"),
        address: String::from_str("0x4200000000000000000000000000000000000006"),
        decimals: 18,
        chain: EvmChain::BaseSepolia,
    }
}

} // verus!

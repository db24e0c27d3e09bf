//! Yield strategies on the destination chain.

use vstd::prelude::*;

verus! {

/// A destination-side yield strategy: a small closed set of named
/// (protocol, asset) pairs plus an open numeric fallback for ids that are
/// not recognised.
#[derive(Debug, Clone, Copy, PartialEq, Eq, Structural)]
pub enum YieldStrategy {
    /// Scallop USDC lending pool
    ScallopUsdc,
    /// Scallop SUI lending pool
    ScallopSui,
    /// Navi USDC lending pool
    NaviUsdc,
    /// Navi SUI lending pool
    NaviSui,
    /// Unrecognised strategy id, carried through unchanged
    Custom(u8),
}

impl YieldStrategy {
    /// The numeric id used for on-chain encoding.
    pub open spec fn id_spec(self) -> u8 {
        match self {
            YieldStrategy::ScallopUsdc => 1,
            YieldStrategy::ScallopSui => 2,
            YieldStrategy::NaviUsdc => 3,
            YieldStrategy::NaviSui => 4,
            YieldStrategy::Custom(id) => id,
        }
    }

    /// The strategy denoted by a numeric id; ids outside the named set fall
    /// back to `Custom` and are never rejected.
    pub open spec fn from_id_spec(id: u8) -> YieldStrategy {
        match id {
            1 => YieldStrategy::ScallopUsdc,
            2 => YieldStrategy::ScallopSui,
            3 => YieldStrategy::NaviUsdc,
            4 => YieldStrategy::NaviSui,
            _ => YieldStrategy::Custom(id),
        }
    }

    /// Get strategy id for on-chain encoding.
    pub fn id(&self) -> (r: u8)
        ensures
            r == self.id_spec(),
    {
        match self {
            YieldStrategy::ScallopUsdc => 1,
            YieldStrategy::ScallopSui => 2,
            YieldStrategy::NaviUsdc => 3,
            YieldStrategy::NaviSui => 4,
            YieldStrategy::Custom(id) => *id,
        }
    }

    /// Get the strategy for a numeric id; never rejects an id.
    pub fn from_id(id: u8) -> (r: YieldStrategy)
        ensures
            r == YieldStrategy::from_id_spec(id),
    {
        match id {
            1 => YieldStrategy::ScallopUsdc,
            2 => YieldStrategy::ScallopSui,
            3 => YieldStrategy::NaviUsdc,
            4 => YieldStrategy::NaviSui,
            _ => YieldStrategy::Custom(id),
        }
    }

    /// Human-readable strategy name.
    pub fn name(&self) -> (r: &'static str)
        ensures
            r@ == self.name_spec(),
    {
        match self {
            YieldStrategy::ScallopUsdc => "Scallop USDC Lending",
            YieldStrategy::ScallopSui => "Scallop SUI Lending",
            YieldStrategy::NaviUsdc => "Navi USDC Lending",
            YieldStrategy::NaviSui => "Navi SUI Lending",
            YieldStrategy::Custom(_) => "Custom Strategy",
        }
    }

    pub open spec fn name_spec(self) -> Seq<char> {
        match self {
            YieldStrategy::ScallopUsdc => "Scallop USDC Lending"@,
            YieldStrategy::ScallopSui => "Scallop SUI Lending"@,
            YieldStrategy::NaviUsdc => "Navi USDC Lending"@,
            YieldStrategy::NaviSui => "Navi SUI Lending"@,
            YieldStrategy::Custom(_) => "Custom Strategy"@,
        }
    }

    /// Name of the protocol the strategy deposits into.
    pub fn protocol(&self) -> (r: &'static str)
        ensures
            r@ == self.protocol_spec(),
    {
        match self {
            YieldStrategy::ScallopUsdc | YieldStrategy::ScallopSui => "Scallop",
            YieldStrategy::NaviUsdc | YieldStrategy::NaviSui => "Navi",
            YieldStrategy::Custom(_) => "Custom",
        }
    }

    pub open spec fn protocol_spec(self) -> Seq<char> {
        match self {
            YieldStrategy::ScallopUsdc | YieldStrategy::ScallopSui => "Scallop"@,
            YieldStrategy::NaviUsdc | YieldStrategy::NaviSui => "Navi"@,
            YieldStrategy::Custom(_) => "Custom"@,
        }
    }

    /// Asset the strategy is denominated in.
    pub fn asset(&self) -> (r: &'static str)
        ensures
            r@ == self.asset_spec(),
    {
        match self {
            YieldStrategy::ScallopUsdc | YieldStrategy::NaviUsdc => "USDC",
            YieldStrategy::ScallopSui | YieldStrategy::NaviSui => "SUI",
            YieldStrategy::Custom(_) => "Unknown",
        }
    }

    pub open spec fn asset_spec(self) -> Seq<char> {
        match self {
            YieldStrategy::ScallopUsdc | YieldStrategy::NaviUsdc => "USDC"@,
            YieldStrategy::ScallopSui | YieldStrategy::NaviSui => "SUI"@,
            YieldStrategy::Custom(_) => "Unknown"@,
        }
    }

    /// Whether the bridged USDC must be swapped on Sui before the deposit.
    pub fn requires_sui_swap(&self) -> (r: bool)
        ensures
            r == (self is ScallopSui || self is NaviSui),
    {
        matches!(self, YieldStrategy::ScallopSui | YieldStrategy::NaviSui)
    }
}

/// Deriving a strategy from an id and reading its id back always returns the
/// id that was given: no strategy id is rejected or rewritten.
pub proof fn lemma_strategy_id_round_trip(id: u8)
    ensures
        YieldStrategy::from_id_spec(id).id_spec() == id,
{
}

} // verus!

//! The intent record and its lifecycle state machine.

use vstd::prelude::*;

use crate::chain::EvmChain;
use crate::strategy::YieldStrategy;

verus! {

/// Which way the assets move.
#[derive(Debug, Clone, Copy, PartialEq, Eq, Structural)]
pub enum Direction {
    EvmToSui,
    SuiToEvm,
}

impl Direction {
    pub open spec fn as_str_spec(self) -> Seq<char> {
        match self {
            Direction::EvmToSui => "EvmToSui"@,
            Direction::SuiToEvm => "SuiToEvm"@,
        }
    }

    /// Name of the direction, as surfaced over the API.
    pub fn as_str(&self) -> (r: &'static str)
        ensures
            r@ == self.as_str_spec(),
    {
        match self {
            Direction::EvmToSui => "EvmToSui",
            Direction::SuiToEvm => "SuiToEvm",
        }
    }
}

/// Lifecycle state of an intent. `Completed`, `Failed` and `Cancelled` are
/// terminal; every other transition moves strictly forward along the success
/// path (see [`IntentStatus::transition_allowed`]).
#[derive(Debug, Clone, Copy, PartialEq, Eq, Structural)]
pub enum IntentStatus {
    Pending,
    SwapCompleted,
    Bridging,
    BridgeCompleted,
    Deposited,
    Completed,
    Failed,
    Cancelled,
}

impl IntentStatus {
    /// No operation may transition out of a terminal state.
    pub open spec fn is_terminal(self) -> bool {
        self is Completed || self is Failed || self is Cancelled
    }

    /// Position of a state along the success path; failure sinks sit above
    /// every forward state so that each allowed edge strictly increases rank.
    pub open spec fn rank(self) -> int {
        match self {
            IntentStatus::Pending => 0,
            IntentStatus::SwapCompleted => 1,
            IntentStatus::Bridging => 2,
            IntentStatus::BridgeCompleted => 3,
            IntentStatus::Deposited => 4,
            IntentStatus::Completed => 5,
            IntentStatus::Failed => 6,
            IntentStatus::Cancelled => 7,
        }
    }

    /// The transition table. Forward-only:
    /// `Pending -> SwapCompleted` (EvmToSui only),
    /// `Pending | SwapCompleted -> Bridging`,
    /// `Bridging -> BridgeCompleted`,
    /// `BridgeCompleted -> Deposited` (EvmToSui only),
    /// `BridgeCompleted -> Completed` (SuiToEvm only),
    /// `Deposited -> Completed`,
    /// and any non-terminal state may move to `Failed` or `Cancelled`.
    pub open spec fn transition_allowed(d: Direction, from: IntentStatus, to: IntentStatus) -> bool {
        ||| (d is EvmToSui && from is Pending && to is SwapCompleted)
        ||| ((from is Pending || from is SwapCompleted) && to is Bridging)
        ||| (from is Bridging && to is BridgeCompleted)
        ||| (d is EvmToSui && from is BridgeCompleted && to is Deposited)
        ||| (d is SuiToEvm && from is BridgeCompleted && to is Completed)
        ||| (from is Deposited && to is Completed)
        ||| (!from.is_terminal() && (to is Failed || to is Cancelled))
    }

    /// Executable form of the transition table.
    pub fn step_allowed(d: Direction, from: IntentStatus, to: IntentStatus) -> (r: bool)
        ensures
            r == IntentStatus::transition_allowed(d, from, to),
    {
        match to {
            IntentStatus::SwapCompleted => matches!(d, Direction::EvmToSui) && matches!(from, IntentStatus::Pending),
            IntentStatus::Bridging => matches!(from, IntentStatus::Pending | IntentStatus::SwapCompleted),
            IntentStatus::BridgeCompleted => matches!(from, IntentStatus::Bridging),
            IntentStatus::Deposited => matches!(d, Direction::EvmToSui) && matches!(from, IntentStatus::BridgeCompleted),
            IntentStatus::Completed => {
                (matches!(d, Direction::SuiToEvm) && matches!(from, IntentStatus::BridgeCompleted))
                    || matches!(from, IntentStatus::Deposited)
            },
            IntentStatus::Failed | IntentStatus::Cancelled => {
                !matches!(from, IntentStatus::Completed | IntentStatus::Failed | IntentStatus::Cancelled)
            },
            IntentStatus::Pending => false,
        }
    }

    pub open spec fn as_str_spec(self) -> Seq<char> {
        match self {
            IntentStatus::Pending => "pending"@,
            IntentStatus::SwapCompleted => "swap_completed"@,
            IntentStatus::Bridging => "bridging"@,
            IntentStatus::BridgeCompleted => "bridge_completed"@,
            IntentStatus::Deposited => "deposited"@,
            IntentStatus::Completed => "completed"@,
            IntentStatus::Failed => "failed"@,
            IntentStatus::Cancelled => "cancelled"@,
        }
    }

    /// Snake-case name of the state, as surfaced over the API.
    pub fn as_str(&self) -> (r: &'static str)
        ensures
            r@ == self.as_str_spec(),
    {
        match self {
            IntentStatus::Pending => "pending",
            IntentStatus::SwapCompleted => "swap_completed",
            IntentStatus::Bridging => "bridging",
            IntentStatus::BridgeCompleted => "bridge_completed",
            IntentStatus::Deposited => "deposited",
            IntentStatus::Completed => "completed",
            IntentStatus::Failed => "failed",
            IntentStatus::Cancelled => "cancelled",
        }
    }
}

/// Every edge of the transition table moves strictly forward: the target's
/// rank exceeds the source's, so no walk through the table can revisit or
/// skip back to an earlier state, and terminal states have no outgoing edge.
pub proof fn lemma_transitions_forward_only(d: Direction, from: IntentStatus, to: IntentStatus)
    ensures
        IntentStatus::transition_allowed(d, from, to) ==> to.rank() > from.rank(),
        from.is_terminal() ==> !IntentStatus::transition_allowed(d, from, to),
{
}

/// A path through the lifecycle that follows the transition table edge by
/// edge.
pub open spec fn valid_walk(d: Direction, path: Seq<IntentStatus>) -> bool {
    forall|i: int|
        0 <= i < path.len() - 1 ==> IntentStatus::transition_allowed(
            d,
            #[trigger] path[i],
            path[i + 1],
        )
}

/// Along any walk that follows the transition table, rank strictly
/// increases between any two positions: no state is ever revisited and no
/// observable path steps backward.
pub proof fn lemma_walk_forward_only(d: Direction, path: Seq<IntentStatus>, i: int, j: int)
    requires
        valid_walk(d, path),
        0 <= i < j < path.len(),
    ensures
        path[i].rank() < path[j].rank(),
    decreases j - i,
{
    if i + 1 < j {
        lemma_walk_forward_only(d, path, i, j - 1);
    }
    assert(IntentStatus::transition_allowed(d, path[j - 1], path[j]));
    lemma_transitions_forward_only(d, path[j - 1], path[j]);
}

/// A user's cross-chain asset-migration request, tracked through its
/// lifecycle. The id is assigned once at creation and never changes; status
/// is mutated only through [`Intent::set_status`].
#[derive(Debug, Clone)]
pub struct Intent {
    /// Opaque identity, immutable after creation.
    pub id: String,
    pub direction: Direction,
    pub status: IntentStatus,
    /// Chain-native source address.
    pub source_address: String,
    /// Chain-native destination address.
    pub dest_address: String,
    pub evm_chain: EvmChain,
    /// Input token address on the source chain.
    pub input_token: String,
    /// Input amount as a decimal string in chain-native units.
    pub input_amount: String,
    /// Bridged amount as a 6-decimal fixed-point decimal string, once known.
    pub usdc_amount: Option<String>,
    pub strategy: Option<YieldStrategy>,
    /// Opaque bridge nonce, set once bridging begins.
    pub bridge_nonce: Option<String>,
    pub swap_tx_hash: Option<String>,
    pub bridge_tx_hash: Option<String>,
    pub dest_tx_hash: Option<String>,
    pub error_message: Option<String>,
    /// Unix timestamp of creation.
    pub created_at: i64,
}

impl Intent {
    /// Data the lifecycle requires of each state: the bridged amount must be
    /// known before bridging begins, and the bridge nonce before the bridge
    /// may complete.
    pub open spec fn status_data_ok(self, to: IntentStatus) -> bool {
        &&& (to is Bridging ==> self.usdc_amount is Some)
        &&& (to is BridgeCompleted ==> self.bridge_nonce is Some)
    }

    /// Well-formedness: the fields the current state implies are present, and
    /// the states only one direction passes through match the direction.
    pub open spec fn wf(self) -> bool {
        &&& ((self.status is Bridging || self.status is BridgeCompleted || self.status is Deposited
            || self.status is Completed) ==> self.usdc_amount is Some)
        &&& ((self.status is BridgeCompleted || self.status is Deposited || self.status is Completed)
            ==> self.bridge_nonce is Some)
        &&& (self.direction is SuiToEvm ==> !(self.status is SwapCompleted) && !(self.status is Deposited))
    }

    /// A fresh EVM-to-Sui intent, `Pending`, with no bridge data yet.
    #[allow(clippy::too_many_arguments)]
    pub fn new_evm_to_sui(
        id: String,
        source_address: String,
        dest_address: String,
        evm_chain: EvmChain,
        input_token: String,
        input_amount: String,
        strategy: YieldStrategy,
        created_at: i64,
    ) -> (r: Intent)
        ensures
            r == (Intent {
                id,
                direction: Direction::EvmToSui,
                status: IntentStatus::Pending,
                source_address,
                dest_address,
                evm_chain,
                input_token,
                input_amount,
                usdc_amount: None::<String>,
                strategy: Some(strategy),
                bridge_nonce: None::<String>,
                swap_tx_hash: None::<String>,
                bridge_tx_hash: None::<String>,
                dest_tx_hash: None::<String>,
                error_message: None::<String>,
                created_at,
            }),
            r.wf(),
    {
        Intent {
            id,
            direction: Direction::EvmToSui,
            status: IntentStatus::Pending,
            source_address,
            dest_address,
            evm_chain,
            input_token,
            input_amount,
            usdc_amount: None,
            strategy: Some(strategy),
            bridge_nonce: None,
            swap_tx_hash: None,
            bridge_tx_hash: None,
            dest_tx_hash: None,
            error_message: None,
            created_at,
        }
    }

    /// A fresh Sui-to-EVM intent, `Pending`, with no strategy and no bridge
    /// data yet.
    pub fn new_sui_to_evm(
        id: String,
        source_address: String,
        dest_address: String,
        evm_chain: EvmChain,
        input_token: String,
        input_amount: String,
        created_at: i64,
    ) -> (r: Intent)
        ensures
            r == (Intent {
                id,
                direction: Direction::SuiToEvm,
                status: IntentStatus::Pending,
                source_address,
                dest_address,
                evm_chain,
                input_token,
                input_amount,
                usdc_amount: None::<String>,
                strategy: None::<YieldStrategy>,
                bridge_nonce: None::<String>,
                swap_tx_hash: None::<String>,
                bridge_tx_hash: None::<String>,
                dest_tx_hash: None::<String>,
                error_message: None::<String>,
                created_at,
            }),
            r.wf(),
    {
        Intent {
            id,
            direction: Direction::SuiToEvm,
            status: IntentStatus::Pending,
            source_address,
            dest_address,
            evm_chain,
            input_token,
            input_amount,
            usdc_amount: None,
            strategy: None,
            bridge_nonce: None,
            swap_tx_hash: None,
            bridge_tx_hash: None,
            dest_tx_hash: None,
            error_message: None,
            created_at,
        }
    }

    /// Move the intent to `to` if the transition table and the state's data
    /// requirements allow it; otherwise leave the intent untouched. Returns
    /// whether the transition was applied, so a sequence of updates through
    /// this operation can only walk forward along the table.
    pub fn set_status(&mut self, to: IntentStatus) -> (applied: bool)
        ensures
            applied == (IntentStatus::transition_allowed(old(self).direction, old(self).status, to)
                && old(self).status_data_ok(to)),
            applied ==> *final(self) == (Intent { status: to, ..*old(self) }),
            !applied ==> *final(self) == *old(self),
            old(self).wf() ==> final(self).wf(),
    {
        let allowed = IntentStatus::step_allowed(self.direction, self.status, to);
        let data_ok = match to {
            IntentStatus::Bridging => self.usdc_amount.is_some(),
            IntentStatus::BridgeCompleted => self.bridge_nonce.is_some(),
            _ => true,
        };
        if allowed && data_ok {
            self.status = to;
            true
        } else {
            false
        }
    }
}

} // verus!

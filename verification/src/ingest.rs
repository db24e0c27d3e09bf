//! Source-chain event ingestion: endpoint capability selection and the
//! poll-mode block cursor.
//!
//! The transport (log subscription or range query over RPC) lives outside
//! this crate; these types carry every decision the ingestion loop makes.

use vstd::prelude::*;

verus! {

/// EVM chain configuration for the listener.
#[derive(Debug, Clone)]
pub struct EvmConfig {
    pub chain: crate::chain::EvmChain,
    pub rpc_url: String,
    pub hook_address: String,
    pub private_key: Option<String>,
    pub poll_interval_secs: u64,
}

impl EvmConfig {
    pub fn new(chain: crate::chain::EvmChain, rpc_url: String, hook_address: String) -> (r: Self)
        ensures
            r == (EvmConfig {
                chain,
                rpc_url,
                hook_address,
                private_key: None::<String>,
                poll_interval_secs: 5u64,
            }),
    {
        EvmConfig { chain, rpc_url, hook_address, private_key: None, poll_interval_secs: 5 }
    }

    pub fn with_private_key(self, key: String) -> (r: Self)
        ensures
            r == (EvmConfig { private_key: Some(key), ..self }),
    {
        EvmConfig { private_key: Some(key), ..self }
    }

    pub fn with_poll_interval(self, secs: u64) -> (r: Self)
        ensures
            r == (EvmConfig { poll_interval_secs: secs, ..self }),
    {
        EvmConfig { poll_interval_secs: secs, ..self }
    }
}

/// Listener for intent-creation events; the transport drives it with the
/// endpoint and cursor decisions below.
#[derive(Debug, Clone)]
pub struct HookEventListener {
    pub config: EvmConfig,
}

impl HookEventListener {
    pub fn new(config: EvmConfig) -> (r: Self)
        ensures
            r.config == config,
    {
        HookEventListener { config }
    }
}

pub open spec fn has_prefix(s: Seq<char>, p: Seq<char>) -> bool {
    p.len() <= s.len() && s.subrange(0, p.len() as int) == p
}

/// Whether `s` starts with `p`, character for character.
pub fn str_has_prefix(s: &str, p: &str) -> (r: bool)
    ensures
        r == has_prefix(s@, p@),
{
    let np = p.unicode_len();
    let ns = s.unicode_len();
    if np > ns {
        return false;
    }
    let mut i: usize = 0;
    while i < np
        invariant
            0 <= i <= np == p@.len(),
            np <= ns == s@.len(),
            s@.subrange(0, i as int) =~= p@.subrange(0, i as int),
        decreases np - i,
    {
        let cs = s.get_char(i);
        let cp = p.get_char(i);
        if cs != cp {
            proof {
                assert(s@.subrange(0, np as int)[i as int] == s@[i as int]);
            }
            return false;
        }
        proof {
            assert(s@.subrange(0, i + 1) =~= p@.subrange(0, i + 1));
        }
        i = i + 1;
    }
    proof {
        assert(p@.subrange(0, np as int) =~= p@);
    }
    true
}

/// The two ingestion strategies, selected once at construction by endpoint
/// capability.
#[derive(Debug, Clone, Copy, PartialEq, Eq, Structural)]
pub enum IngestMode {
    /// Subscribe to a log stream and forward each decoded log as it arrives.
    Push,
    /// Query logs over a block range on a fixed interval.
    Poll,
}

/// A websocket endpoint can push; anything else is polled.
pub open spec fn ingest_mode_spec(url: Seq<char>) -> IngestMode {
    if has_prefix(url, "ws://"@) || has_prefix(url, "wss://"@) {
        IngestMode::Push
    } else {
        IngestMode::Poll
    }
}

/// Select the ingestion strategy for an endpoint: push for a websocket URL
/// (`ws://` or `wss://`), poll otherwise.
pub fn ingest_mode(url: &str) -> (r: IngestMode)
    ensures
        r == ingest_mode_spec(url@),
{
    if str_has_prefix(url, "ws://") || str_has_prefix(url, "wss://") {
        IngestMode::Push
    } else {
        IngestMode::Poll
    }
}

/// A half-open block range `(from_block - 1, to_block]`, both ends
/// inclusive as queried.
#[derive(Debug, Clone, Copy, PartialEq, Eq, Structural)]
pub struct BlockRange {
    pub from_block: u64,
    pub to_block: u64,
}

/// Poll-mode scan cursor: remembers the newest block already scanned.
#[derive(Debug, Clone, Copy, PartialEq, Eq, Structural)]
pub struct BlockCursor {
    pub last_seen_block: u64,
}

impl BlockCursor {
    pub fn new(start_block: u64) -> (r: Self)
        ensures
            r.last_seen_block == start_block,
    {
        BlockCursor { last_seen_block: start_block }
    }

    /// One poll tick at chain height `current_block`. When the chain has not
    /// advanced past the cursor, no query is issued and the cursor does not
    /// move; otherwise the scan covers exactly the blocks after the cursor
    /// up to and including `current_block`, and the cursor advances to
    /// `current_block` whether or not the scan will find logs.
    pub fn tick(&mut self, current_block: u64) -> (r: Option<BlockRange>)
        ensures
            current_block <= old(self).last_seen_block ==> r is None && *final(self) == *old(self),
            current_block > old(self).last_seen_block ==> r == Some(BlockRange {
                from_block: (old(self).last_seen_block + 1) as u64,
                to_block: current_block,
            }) && final(self).last_seen_block == current_block,
    {
        if current_block > self.last_seen_block {
            let range = BlockRange { from_block: self.last_seen_block + 1, to_block: current_block };
            self.last_seen_block = current_block;
            Some(range)
        } else {
            None
        }
    }
}

/// Lifecycle status as encoded by the on-chain hook contract.
#[derive(Debug, Clone, Copy, PartialEq, Eq, Structural)]
pub enum HookIntentStatus {
    Pending,
    SwapCompleted,
    Bridging,
    Completed,
    Failed,
    Cancelled,
}

impl HookIntentStatus {
    /// The status a contract code denotes; unknown codes fall back to
    /// `Pending`.
    pub open spec fn from_code_spec(value: u8) -> HookIntentStatus {
        match value {
            0 => HookIntentStatus::Pending,
            1 => HookIntentStatus::SwapCompleted,
            2 => HookIntentStatus::Bridging,
            3 => HookIntentStatus::Completed,
            4 => HookIntentStatus::Failed,
            5 => HookIntentStatus::Cancelled,
            _ => HookIntentStatus::Pending,
        }
    }
}

impl From<u8> for HookIntentStatus {
    fn from(value: u8) -> (r: Self) {
        match value {
            0 => HookIntentStatus::Pending,
            1 => HookIntentStatus::SwapCompleted,
            2 => HookIntentStatus::Bridging,
            3 => HookIntentStatus::Completed,
            4 => HookIntentStatus::Failed,
            5 => HookIntentStatus::Cancelled,
            _ => HookIntentStatus::Pending,
        }
    }
}

impl vstd::std_specs::convert::FromSpecImpl<u8> for HookIntentStatus {
    open spec fn obeys_from_spec() -> bool {
        true
    }

    open spec fn from_spec(v: u8) -> Self {
        HookIntentStatus::from_code_spec(v)
    }
}

} // verus!

//! Bridge protocol client: builds burn-and-mint transfer parameter records
//! and resolves cross-chain attestations.
//!
//! Non-custodial: every function here builds plain parameter records for an
//! external wallet to sign, or classifies responses the transport has already
//! fetched. The transport itself (HTTP) lives outside this crate and hands in
//! plain values.

use vstd::prelude::*;

verus! {

// Protocol domain ids: a fixed, order-independent registry from logical
// chain identity to the bridge protocol's numeric domain id.
pub const CCTP_DOMAIN_ETHEREUM: u32 = 0;
pub const CCTP_DOMAIN_AVALANCHE: u32 = 1;
pub const CCTP_DOMAIN_OPTIMISM: u32 = 2;
pub const CCTP_DOMAIN_ARBITRUM: u32 = 3;
pub const CCTP_DOMAIN_BASE: u32 = 5;
pub const CCTP_DOMAIN_SUI: u32 = 10;

/// USDC on Base Sepolia.
pub const USDC_BASE_SEPOLIA: &'static str = "0x036CbD53842c5426634e7929541eC2318f3dCF7e";
/// TokenMessenger on Base Sepolia (depositForBurn is called here).
pub const TOKEN_MESSENGER_BASE_SEPOLIA: &'static str = "0x9a4427fd4196d315517ed71ddd16BD053cC9c4a4";
/// MessageTransmitter on Base Sepolia (receiveMessage is called here).
pub const MESSAGE_TRANSMITTER_BASE_SEPOLIA: &'static str = "0x241661E680D1F25deb4cE5230b2D7165B3ba580e";

/// Attestation service endpoints.
pub const ATTESTATION_TESTNET_URL: &'static str = "https://iris-api-sandbox.circle.com/v1";
pub const ATTESTATION_MAINNET_URL: &'static str = "https://attestation.circle.com/v1";

/// The chains the domain registry covers.
#[derive(Debug, Clone, Copy, PartialEq, Eq, Structural)]
pub enum BridgeChain {
    Ethereum,
    Avalanche,
    Optimism,
    Arbitrum,
    Base,
    Sui,
}

impl BridgeChain {
    pub open spec fn domain_id_spec(self) -> u32 {
        match self {
            BridgeChain::Ethereum => 0,
            BridgeChain::Avalanche => 1,
            BridgeChain::Optimism => 2,
            BridgeChain::Arbitrum => 3,
            BridgeChain::Base => 5,
            BridgeChain::Sui => 10,
        }
    }

    /// The protocol domain id of this chain. A pure read of the fixed
    /// registry: any two calls, in any order, return the same value.
    pub fn domain_id(&self) -> (r: u32)
        ensures
            r == self.domain_id_spec(),
    {
        match self {
            BridgeChain::Ethereum => 0,
            BridgeChain::Avalanche => 1,
            BridgeChain::Optimism => 2,
            BridgeChain::Arbitrum => 3,
            BridgeChain::Base => 5,
            BridgeChain::Sui => 10,
        }
    }
}

/// The registry is a fixed mapping: each chain has exactly one domain id,
/// with Base at 5 and Sui at 10, matching the exported constants, so no call
/// order or transfer direction can change what the registry returns.
pub proof fn lemma_domain_registry_fixed()
    ensures
        BridgeChain::Base.domain_id_spec() == CCTP_DOMAIN_BASE == 5,
        BridgeChain::Sui.domain_id_spec() == CCTP_DOMAIN_SUI == 10,
        BridgeChain::Ethereum.domain_id_spec() == CCTP_DOMAIN_ETHEREUM,
        BridgeChain::Avalanche.domain_id_spec() == CCTP_DOMAIN_AVALANCHE,
        BridgeChain::Optimism.domain_id_spec() == CCTP_DOMAIN_OPTIMISM,
        BridgeChain::Arbitrum.domain_id_spec() == CCTP_DOMAIN_ARBITRUM,
{
}

/// Destination chain for receiveMessage routing.
#[derive(Debug, Clone, Copy, PartialEq, Eq, Structural)]
pub enum DestChain {
    BaseSepolia,
    Sui,
}

/// Parameters for depositForBurn — handed to the frontend for signing.
#[derive(Debug, Clone, PartialEq, Eq)]
pub struct DepositForBurnParams {
    /// TokenMessenger contract to call.
    pub token_messenger: String,
    /// USDC contract to approve.
    pub usdc_address: String,
    /// Amount in smallest unit (6 decimals for USDC).
    pub amount: u64,
    /// Protocol domain id of the destination chain.
    pub destination_domain: u32,
    /// Destination address (hex string).
    pub destination_address: String,
}

/// A completed attestation from the attestation service.
#[derive(Debug, Clone, PartialEq, Eq)]
pub struct CctpAttestation {
    /// Encoded bridge message.
    pub message: String,
    /// The service's attestation signature.
    pub attestation_signature: String,
}

/// Parameters for receiveMessage — permissionless, any party may submit.
#[derive(Debug, Clone, PartialEq, Eq)]
pub struct ReceiveMessageParams {
    /// MessageTransmitter contract on the destination chain.
    pub message_transmitter: String,
    /// Encoded message from the attestation.
    pub message: String,
    /// Attestation signature.
    pub attestation_signature: String,
}

/// Bridge client errors.
#[derive(Debug, Clone, PartialEq, Eq)]
pub enum CctpError {
    /// The request to the attestation service could not be made.
    Request(String),
    /// The attestation service answered with a non-success status.
    Api { status: u16, message: String },
    /// The attestation service's answer could not be parsed.
    Parse(String),
    /// Attestation polling exhausted its attempts.
    AttestationTimeout,
}

/// The payload of a successful attestation lookup, as the transport parsed
/// it.
#[derive(Debug, Clone, PartialEq, Eq)]
pub struct AttestationData {
    pub message: String,
    pub attestation_signature: String,
    /// The service's own status word; only exactly `"complete"` counts.
    pub status: String,
}

/// One attestation lookup's response, reduced to plain values by the
/// transport.
#[derive(Debug, Clone, PartialEq, Eq)]
pub enum AttestationResponse {
    /// The service does not know the nonce (attestation not yet available).
    NotFound,
    /// A non-success, non-not-found answer.
    Failure { status: u16, body: String },
    /// A success answer whose body parsed; `data` is absent when the service
    /// has no record yet.
    Success { data: Option<AttestationData> },
    /// A success answer whose body did not parse.
    Unparsable { detail: String },
}

/// What one attestation lookup yields: an attestation only when the service
/// reports a record with status exactly `"complete"`; not-found and
/// incomplete records yield an empty result, not an error.
pub open spec fn resolution(resp: AttestationResponse) -> Result<Option<CctpAttestation>, CctpError> {
    match resp {
        AttestationResponse::NotFound => Ok(None),
        AttestationResponse::Failure { status, body } => Err(CctpError::Api { status, message: body }),
        AttestationResponse::Unparsable { detail } => Err(CctpError::Parse(detail)),
        AttestationResponse::Success { data } => match data {
            Some(d) => if d.status@ == "complete"@ {
                Ok(Some(CctpAttestation {
                    message: d.message,
                    attestation_signature: d.attestation_signature,
                }))
            } else {
                Ok(None)
            },
            None => Ok(None),
        },
    }
}

/// Classify one attestation lookup. Empty (`Ok(None)`) for a not-found
/// response or a record whose status is not exactly `"complete"`; an `Api`
/// error for any other non-success response.
pub fn resolve_attestation(resp: &AttestationResponse) -> (r: Result<Option<CctpAttestation>, CctpError>)
    ensures
        r == resolution(*resp),
{
    match resp {
        AttestationResponse::NotFound => Ok(None),
        AttestationResponse::Failure { status, body } => Err(CctpError::Api {
            status: *status,
            message: body.clone(),
        }),
        AttestationResponse::Unparsable { detail } => Err(CctpError::Parse(detail.clone())),
        AttestationResponse::Success { data } => match data {
            Some(d) => {
                let complete = String::from_str("complete");
                if d.status.eq(&complete) {
                    Ok(Some(CctpAttestation {
                        message: d.message.clone(),
                        attestation_signature: d.attestation_signature.clone(),
                    }))
                } else {
                    Ok(None)
                }
            },
            None => Ok(None),
        },
    }
}

/// Bounded fixed-interval retry, modelled over the sequence of responses the
/// service would give to successive lookups: the result after examining
/// responses from index `i` on, with `max - i` attempts left.
pub open spec fn poll_result(
    resps: Seq<AttestationResponse>,
    i: nat,
    max: nat,
) -> Result<CctpAttestation, CctpError>
    decreases max - i,
{
    if i >= max || i >= resps.len() {
        Err(CctpError::AttestationTimeout)
    } else {
        match resolution(resps[i as int]) {
            Err(e) => Err(e),
            Ok(r) => match r {
                Some(a) => Ok(a),
                None => poll_result(resps, i + 1, max),
            },
        }
    }
}

/// How many lookups the bounded retry performs before stopping.
pub open spec fn poll_lookups(resps: Seq<AttestationResponse>, i: nat, max: nat) -> nat
    decreases max - i,
{
    if i >= max || i >= resps.len() {
        0
    } else {
        match resolution(resps[i as int]) {
            Err(_) => 1,
            Ok(r) => match r {
                Some(_) => 1,
                None => 1 + poll_lookups(resps, i + 1, max),
            },
        }
    }
}

/// Against a service that never yields an attestation, a poll of
/// `max` attempts performs exactly `max` lookups and then times out.
pub proof fn lemma_poll_exhaustion(resps: Seq<AttestationResponse>, i: nat, max: nat)
    requires
        i <= max <= resps.len(),
        forall|j: int| 0 <= j < resps.len() ==> resolution(#[trigger] resps[j]) == Ok::<Option<CctpAttestation>, CctpError>(None::<CctpAttestation>),
    ensures
        poll_result(resps, i, max) == Err::<CctpAttestation, CctpError>(CctpError::AttestationTimeout),
        poll_lookups(resps, i, max) == max - i,
    decreases max - i,
{
    if i < max {
        lemma_poll_exhaustion(resps, i + 1, max);
    }
}

/// Incremental state of a bounded attestation poll. The transport performs
/// one lookup per attempt, hands the response to [`AttestationPoll::next`],
/// and sleeps the fixed interval only when told to retry; the interval is
/// never applied before the first attempt.
#[derive(Debug, Clone, Copy, PartialEq, Eq, Structural)]
pub struct AttestationPoll {
    pub max_attempts: u32,
    pub attempts_made: u32,
}

/// What the poll's driver must do after an attempt.
#[derive(Debug, Clone, PartialEq, Eq)]
pub enum PollStep {
    /// The attestation is ready: stop, return it.
    Completed(CctpAttestation),
    /// Stop with this error (a service error, or timeout on exhaustion).
    Failed(CctpError),
    /// Sleep the configured interval, look up again, and call `next` again.
    Retry,
}

impl AttestationPoll {
    pub open spec fn wf(self) -> bool {
        self.attempts_made <= self.max_attempts
    }

    pub fn new(max_attempts: u32) -> (r: Self)
        ensures
            r == (AttestationPoll { max_attempts, attempts_made: 0 }),
            r.wf(),
    {
        AttestationPoll { max_attempts, attempts_made: 0 }
    }

    /// Account one lookup's response. Yields the attestation as soon as any
    /// attempt resolves to one, a service error unchanged, and
    /// `AttestationTimeout` once all `max_attempts` attempts have resolved
    /// empty.
    pub fn next(&mut self, resp: &AttestationResponse) -> (step: PollStep)
        requires
            old(self).attempts_made < old(self).max_attempts,
        ensures
            final(self).max_attempts == old(self).max_attempts,
            final(self).attempts_made == old(self).attempts_made + 1,
            final(self).wf(),
            step == (match resolution(*resp) {
                Err(e) => PollStep::Failed(e),
                Ok(r) => match r {
                    Some(a) => PollStep::Completed(a),
                    None => if old(self).attempts_made + 1 == old(self).max_attempts {
                        PollStep::Failed(CctpError::AttestationTimeout)
                    } else {
                        PollStep::Retry
                    },
                },
            }),
    {
        self.attempts_made = self.attempts_made + 1;
        match resolve_attestation(resp) {
            Err(e) => PollStep::Failed(e),
            Ok(r) => match r {
                Some(a) => PollStep::Completed(a),
                None => {
                    if self.attempts_made == self.max_attempts {
                        PollStep::Failed(CctpError::AttestationTimeout)
                    } else {
                        PollStep::Retry
                    }
                },
            },
        }
    }
}

/// Replay a bounded attestation poll over a transcript of service
/// responses, one per attempt. Returns the poll's outcome and how many
/// lookups it performed. Timing (the fixed interval between attempts) is the
/// driver's concern and changes no outcome.
pub fn poll_attestation(
    max_attempts: u32,
    responses: &Vec<AttestationResponse>,
) -> (r: (Result<CctpAttestation, CctpError>, u32))
    requires
        max_attempts <= responses@.len(),
    ensures
        r.0 == poll_result(responses@, 0, max_attempts as nat),
        r.1 == poll_lookups(responses@, 0, max_attempts as nat),
{
    let mut poll = AttestationPoll::new(max_attempts);
    let mut i: usize = 0;
    if max_attempts == 0 {
        return (Err(CctpError::AttestationTimeout), 0);
    }
    loop
        invariant
            poll.max_attempts == max_attempts,
            poll.attempts_made == i,
            0 <= i < max_attempts <= responses@.len(),
            poll_result(responses@, 0, max_attempts as nat) == poll_result(responses@, i as nat, max_attempts as nat),
            poll_lookups(responses@, 0, max_attempts as nat) == i + poll_lookups(responses@, i as nat, max_attempts as nat),
        decreases max_attempts - i,
    {
        let step = poll.next(&responses[i]);
        i = i + 1;
        match step {
            PollStep::Completed(a) => {
                return (Ok(a), i as u32);
            },
            PollStep::Failed(e) => {
                proof {
                    reveal_with_fuel(poll_result, 2);
                    reveal_with_fuel(poll_lookups, 2);
                }
                return (Err(e), i as u32);
            },
            PollStep::Retry => {
                if i >= max_attempts as usize {
                    // unreachable: `next` fails with a timeout on the last
                    // attempt instead of asking for a retry
                    return (Err(CctpError::AttestationTimeout), i as u32);
                }
            },
        }
    }
}

/// Bridge protocol client. Holds the attestation service endpoint and the
/// network flavour; all its operations are pure record builders.
#[derive(Debug, Clone)]
pub struct CctpClient {
    /// Attestation service base URL.
    pub attestation_url: String,
    /// Whether this client addresses test networks.
    pub testnet: bool,
}

impl CctpClient {
    /// Client for the test networks.
    pub fn testnet() -> (r: Self)
        ensures
            r.attestation_url@ == ATTESTATION_TESTNET_URL@,
            r.testnet,
    {
        CctpClient { attestation_url: String::from_str(ATTESTATION_TESTNET_URL), testnet: true }
    }

    /// Client for the main networks.
    pub fn mainnet() -> (r: Self)
        ensures
            r.attestation_url@ == ATTESTATION_MAINNET_URL@,
            !r.testnet,
    {
        CctpClient { attestation_url: String::from_str(ATTESTATION_MAINNET_URL), testnet: false }
    }

    /// Build depositForBurn parameters. Pure, no I/O, never fails: the
    /// amount, destination domain and destination address are carried into
    /// the record unchanged, and the contract addresses are the fixed ones.
    pub fn build_deposit_for_burn_params(
        &self,
        amount: u64,
        dest_domain: u32,
        dest_address: &str,
    ) -> (r: DepositForBurnParams)
        ensures
            r.token_messenger@ == TOKEN_MESSENGER_BASE_SEPOLIA@,
            r.usdc_address@ == USDC_BASE_SEPOLIA@,
            r.amount == amount,
            r.destination_domain == dest_domain,
            r.destination_address@ == dest_address@,
    {
        DepositForBurnParams {
            token_messenger: String::from_str(TOKEN_MESSENGER_BASE_SEPOLIA),
            usdc_address: String::from_str(USDC_BASE_SEPOLIA),
            amount,
            destination_domain: dest_domain,
            destination_address: String::from_str(dest_address),
        }
    }

    /// Build receiveMessage parameters for the destination chain: the
    /// attestation's message and signature unchanged, with the destination's
    /// MessageTransmitter (empty for Sui, whose mint goes through a Move
    /// call instead of a contract).
    pub fn build_receive_message_params(
        &self,
        attestation: &CctpAttestation,
        dest: DestChain,
    ) -> (r: ReceiveMessageParams)
        ensures
            dest is BaseSepolia ==> r.message_transmitter@ == MESSAGE_TRANSMITTER_BASE_SEPOLIA@,
            dest is Sui ==> r.message_transmitter@ == Seq::<char>::empty(),
            r.message == attestation.message,
            r.attestation_signature == attestation.attestation_signature,
    {
        let message_transmitter = match dest {
            DestChain::BaseSepolia => String::from_str(MESSAGE_TRANSMITTER_BASE_SEPOLIA),
            DestChain::Sui => String::new(),
        };
        ReceiveMessageParams {
            message_transmitter,
            message: attestation.message.clone(),
            attestation_signature: attestation.attestation_signature.clone(),
        }
    }
}

} // verus!

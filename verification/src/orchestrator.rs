//! Intent orchestrator: drives the lifecycle state machine end to end.
//!
//! Non-custodial: every on-chain step is the construction of an unsigned
//! parameter record. Progression past a bridging step needs an external
//! signer; the caller performs the outside steps (the signing callback that
//! yields the bridge nonce, and the attestation poll) and hands their
//! results in, so each entry point is a pure function from the intent data
//! and those outcomes to the updated intent.

use vstd::prelude::*;

use crate::agent_config::AgentConfig;
use crate::cctp::{
    CctpAttestation, CctpClient, CctpError, DestChain, CCTP_DOMAIN_BASE, CCTP_DOMAIN_SUI,
};
use crate::decimal::{dec_value, parse_u64, parses_as_u64};
use crate::event::IntentCreatedEvent;
use crate::intent::{Direction, Intent, IntentStatus};
use crate::strategy::YieldStrategy;

verus! {

/// Orchestrator errors. `InvalidAmount` is local and non-retriable; bridge
/// client errors propagate unchanged.
#[derive(Debug, Clone, PartialEq, Eq)]
pub enum OrchestratorError {
    /// A bridge client error, surfaced verbatim.
    Cctp(CctpError),
    /// A destination-chain collaborator failure.
    Sui(String),
    /// The intent's amount is zero, missing, or unparsable.
    InvalidAmount(String),
    /// The bridge failed terminally; the caller should mark the intent
    /// `Failed`.
    BridgeFailed(String),
    /// Reserved for blocking paths.
    Timeout,
}

/// Whether an optional amount string holds a positive unsigned 64-bit
/// value.
pub open spec fn usdc_positive(a: Option<String>) -> bool {
    &&& a matches Some(s)
    &&& parses_as_u64(s@)
    &&& dec_value(s@) > 0
}

/// Orchestrates cross-chain intent execution. Stateless across calls: each
/// operation takes an intent (or the event to build one) and returns the
/// updated value for the caller's store to persist.
#[derive(Debug, Clone)]
pub struct IntentOrchestrator {
    pub config: AgentConfig,
    pub cctp: CctpClient,
}

impl IntentOrchestrator {
    /// Build an orchestrator over the given configuration; the bridge
    /// client addresses test networks exactly when the configured chain is
    /// a testnet.
    pub fn new(config: AgentConfig) -> (r: Self)
        ensures
            r.config == config,
            r.cctp.testnet == (config.evm.chain is BaseSepolia || config.evm.chain is Sepolia),
    {
        let cctp = if config.evm.chain.is_testnet() {
            CctpClient::testnet()
        } else {
            CctpClient::mainnet()
        };
        IntentOrchestrator { config, cctp }
    }

    /// Process an EVM-to-Sui intent from a decoded intent-creation event.
    ///
    /// `bridge_nonce` is the nonce the signing callback supplied once the
    /// source-chain burn was submitted; `attestation` is the outcome of the
    /// attestation poll the caller ran for that nonce.
    ///
    /// An event amount that does not parse as an unsigned 64-bit integer
    /// fails with `InvalidAmount` before any bridge step; a failed
    /// attestation propagates verbatim; otherwise the returned intent has
    /// walked the full lifecycle to `Completed`, with every field pinned to
    /// the event, the configuration, and the supplied nonce.
    pub fn process_evm_to_sui(
        &self,
        event: IntentCreatedEvent,
        bridge_nonce: String,
        attestation: Result<CctpAttestation, CctpError>,
    ) -> (r: Result<Intent, OrchestratorError>)
        ensures
            !parses_as_u64(event.usdc_amount@) ==> r == Err::<Intent, OrchestratorError>(
                OrchestratorError::InvalidAmount(event.usdc_amount),
            ),
            parses_as_u64(event.usdc_amount@) && attestation is Err ==> r == Err::<
                Intent,
                OrchestratorError,
            >(OrchestratorError::Cctp(attestation->Err_0)),
            parses_as_u64(event.usdc_amount@) && attestation is Ok ==> r == Ok::<
                Intent,
                OrchestratorError,
            >(
                Intent {
                    id: event.intent_id,
                    direction: Direction::EvmToSui,
                    status: IntentStatus::Completed,
                    source_address: event.user,
                    dest_address: event.sui_destination,
                    evm_chain: self.config.evm.chain,
                    input_token: event.input_token,
                    input_amount: event.input_amount,
                    usdc_amount: Some(event.usdc_amount),
                    strategy: Some(YieldStrategy::from_id_spec(event.strategy_id)),
                    bridge_nonce: Some(bridge_nonce),
                    swap_tx_hash: None::<String>,
                    bridge_tx_hash: None::<String>,
                    dest_tx_hash: None::<String>,
                    error_message: None::<String>,
                    created_at: event.timestamp as i64,
                },
            ),
    {
        let strategy = YieldStrategy::from_id(event.strategy_id);
        let created_at = #[verifier::truncate] (event.timestamp as i64);

        let mut intent = Intent::new_evm_to_sui(
            event.intent_id,
            event.user,
            event.sui_destination,
            self.config.evm.chain,
            event.input_token,
            event.input_amount,
            strategy,
            created_at,
        );
        intent.usdc_amount = Some(event.usdc_amount.clone());
        intent.set_status(IntentStatus::SwapCompleted);

        // Build depositForBurn parameters (returned to the frontend for
        // signing); an unparsable amount is rejected before any bridge step.
        let usdc_amount: u64 = match parse_u64(event.usdc_amount.as_str()) {
            Some(v) => v,
            None => {
                return Err(OrchestratorError::InvalidAmount(event.usdc_amount));
            },
        };
        let _deposit_params = self.cctp.build_deposit_for_burn_params(
            usdc_amount,
            CCTP_DOMAIN_SUI,
            intent.dest_address.as_str(),
        );

        // The signing callback supplied the nonce of the submitted burn.
        intent.bridge_nonce = Some(bridge_nonce);
        intent.set_status(IntentStatus::Bridging);

        // The attestation poll the caller ran for that nonce.
        let att = match attestation {
            Ok(a) => a,
            Err(e) => {
                return Err(OrchestratorError::Cctp(e));
            },
        };
        let _receive_params = self.cctp.build_receive_message_params(&att, DestChain::Sui);
        intent.set_status(IntentStatus::BridgeCompleted);

        // Destination deposit: built by the external protocol collaborator
        // and signed by the frontend.
        intent.set_status(IntentStatus::Deposited);
        intent.set_status(IntentStatus::Completed);

        Ok(intent)
    }

    /// Process a Sui-to-EVM intent created over the API.
    ///
    /// The intent's amount must hold a positive unsigned 64-bit value;
    /// zero, missing, or unparsable fails with `InvalidAmount` and leaves
    /// the intent untouched. A failed attestation propagates verbatim with
    /// the intent left at `Bridging`; otherwise the intent reaches
    /// `Completed` with the supplied nonce recorded.
    pub fn process_sui_to_evm(
        &self,
        intent: &mut Intent,
        bridge_nonce: String,
        attestation: Result<CctpAttestation, CctpError>,
    ) -> (r: Result<(), OrchestratorError>)
        requires
            old(intent).wf(),
            old(intent).direction is SuiToEvm,
            old(intent).status is Pending,
        ensures
            final(intent).wf(),
            !usdc_positive(old(intent).usdc_amount) ==> (r matches Err(
                OrchestratorError::InvalidAmount(z),
            ) && z@ == "0"@ && *final(intent) == *old(intent)),
            usdc_positive(old(intent).usdc_amount) && attestation is Err ==> r == Err::<
                (),
                OrchestratorError,
            >(OrchestratorError::Cctp(attestation->Err_0)) && *final(intent) == (Intent {
                status: IntentStatus::Bridging,
                bridge_nonce: Some(bridge_nonce),
                ..*old(intent)
            }),
            usdc_positive(old(intent).usdc_amount) && attestation is Ok ==> r is Ok
                && *final(intent) == (Intent {
                status: IntentStatus::Completed,
                bridge_nonce: Some(bridge_nonce),
                ..*old(intent)
            }),
    {
        let usdc_amount: u64 = match &intent.usdc_amount {
            Some(s) => match parse_u64(s.as_str()) {
                Some(v) => v,
                None => 0,
            },
            None => 0,
        };

        if usdc_amount == 0 {
            return Err(OrchestratorError::InvalidAmount(String::from_str("0")));
        }

        // Build depositForBurn parameters for the source-side burn
        // (destination: Base); the frontend signs them.
        let _deposit_params = self.cctp.build_deposit_for_burn_params(
            usdc_amount,
            CCTP_DOMAIN_BASE,
            intent.dest_address.as_str(),
        );

        intent.bridge_nonce = Some(bridge_nonce);
        intent.set_status(IntentStatus::Bridging);

        let att = match attestation {
            Ok(a) => a,
            Err(e) => {
                return Err(OrchestratorError::Cctp(e));
            },
        };
        let _receive_params = self.cctp.build_receive_message_params(&att, DestChain::BaseSepolia);
        intent.set_status(IntentStatus::BridgeCompleted);

        // Destination delivery is the external solver's step; the intent
        // completes once it reports done.
        intent.set_status(IntentStatus::Completed);

        Ok(())
    }
}

} // verus!

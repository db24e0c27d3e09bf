//! The orchestrator's two entry points, end to end on plain values.

use naisu::agent_config::{AgentConfig, SuiConfig};
use naisu::cctp::{CctpAttestation, CctpError};
use naisu::chain::EvmChain;
use naisu::event::IntentCreatedEvent;
use naisu::ingest::EvmConfig;
use naisu::intent::{Direction, Intent, IntentStatus};
use naisu::orchestrator::{IntentOrchestrator, OrchestratorError};
use naisu::strategy::YieldStrategy;

fn testnet_orchestrator() -> IntentOrchestrator {
    let evm = EvmConfig::new(
        EvmChain::BaseSepolia,
        "https://sepolia.base.org".to_string(),
        "0xhook".to_string(),
    );
    IntentOrchestrator::new(AgentConfig { evm, sui: SuiConfig::testnet() })
}

fn sample_event(usdc_amount: &str) -> IntentCreatedEvent {
    IntentCreatedEvent {
        intent_id: "0x0101".to_string(),
        user: "0xuser".to_string(),
        sui_destination: "0xsuidest".to_string(),
        input_token: "0xtoken".to_string(),
        input_amount: "2000000".to_string(),
        usdc_amount: usdc_amount.to_string(),
        strategy_id: 3,
        timestamp: 1_700_000_000,
    }
}

fn attestation() -> CctpAttestation {
    CctpAttestation {
        message: "0xmsg".to_string(),
        attestation_signature: "0xsig".to_string(),
    }
}

#[test]
fn orchestrator_flavour_follows_the_chain() {
    let orch = testnet_orchestrator();
    assert!(orch.cctp.testnet);
    let evm = EvmConfig::new(
        EvmChain::Base,
        "https://mainnet.base.org".to_string(),
        "0xhook".to_string(),
    );
    let main = IntentOrchestrator::new(AgentConfig { evm, sui: SuiConfig::testnet() });
    assert!(!main.cctp.testnet);
}

#[test]
fn evm_to_sui_walks_to_completed() {
    let orch = testnet_orchestrator();
    let intent = orch
        .process_evm_to_sui(sample_event("1500000"), "nonce-7".to_string(), Ok(attestation()))
        .unwrap();
    assert_eq!(intent.id, "0x0101");
    assert_eq!(intent.direction, Direction::EvmToSui);
    assert_eq!(intent.status, IntentStatus::Completed);
    assert_eq!(intent.usdc_amount, Some("1500000".to_string()));
    assert_eq!(intent.bridge_nonce, Some("nonce-7".to_string()));
    assert_eq!(intent.strategy, Some(YieldStrategy::NaviUsdc));
    assert_eq!(intent.evm_chain, EvmChain::BaseSepolia);
    assert_eq!(intent.source_address, "0xuser");
    assert_eq!(intent.dest_address, "0xsuidest");
    assert_eq!(intent.created_at, 1_700_000_000);
}

#[test]
fn evm_to_sui_rejects_unparsable_amounts() {
    let orch = testnet_orchestrator();
    let r = orch.process_evm_to_sui(sample_event("not-a-number"), "n".to_string(), Ok(attestation()));
    assert_eq!(r.unwrap_err(), OrchestratorError::InvalidAmount("not-a-number".to_string()));
}

#[test]
fn evm_to_sui_propagates_attestation_errors() {
    let orch = testnet_orchestrator();
    let r = orch.process_evm_to_sui(
        sample_event("1500000"),
        "n".to_string(),
        Err(CctpError::AttestationTimeout),
    );
    assert_eq!(r.unwrap_err(), OrchestratorError::Cctp(CctpError::AttestationTimeout));
}

fn sui_intent(usdc_amount: Option<&str>) -> Intent {
    let mut intent = Intent::new_sui_to_evm(
        "intent-1".to_string(),
        "0xsuiuser".to_string(),
        "0xevmdest".to_string(),
        EvmChain::BaseSepolia,
        "0xusdc".to_string(),
        "1.5".to_string(),
        1_700_000_000,
    );
    intent.usdc_amount = usdc_amount.map(|s| s.to_string());
    intent
}

#[test]
fn sui_to_evm_zero_amount_is_invalid_and_changes_nothing() {
    let orch = testnet_orchestrator();
    let mut intent = sui_intent(Some("0"));
    let before = intent.clone();
    let r = orch.process_sui_to_evm(&mut intent, "n".to_string(), Ok(attestation()));
    assert_eq!(r.unwrap_err(), OrchestratorError::InvalidAmount("0".to_string()));
    assert_eq!(intent.status, before.status);
    assert_eq!(intent.bridge_nonce, before.bridge_nonce);
    assert_eq!(intent.usdc_amount, before.usdc_amount);
}

#[test]
fn sui_to_evm_missing_amount_is_invalid() {
    let orch = testnet_orchestrator();
    let mut intent = sui_intent(None);
    let r = orch.process_sui_to_evm(&mut intent, "n".to_string(), Ok(attestation()));
    assert_eq!(r.unwrap_err(), OrchestratorError::InvalidAmount("0".to_string()));
    assert_eq!(intent.status, IntentStatus::Pending);
}

#[test]
fn sui_to_evm_unparsable_amount_is_invalid() {
    let orch = testnet_orchestrator();
    let mut intent = sui_intent(Some("1.5e6"));
    let r = orch.process_sui_to_evm(&mut intent, "n".to_string(), Ok(attestation()));
    assert_eq!(r.unwrap_err(), OrchestratorError::InvalidAmount("0".to_string()));
    assert_eq!(intent.status, IntentStatus::Pending);
}

#[test]
fn sui_to_evm_walks_to_completed() {
    let orch = testnet_orchestrator();
    let mut intent = sui_intent(Some("1500000"));
    let r = orch.process_sui_to_evm(&mut intent, "nonce-9".to_string(), Ok(attestation()));
    assert!(r.is_ok());
    assert_eq!(intent.status, IntentStatus::Completed);
    assert_eq!(intent.bridge_nonce, Some("nonce-9".to_string()));
}

#[test]
fn sui_to_evm_leaves_bridging_on_attestation_failure() {
    let orch = testnet_orchestrator();
    let mut intent = sui_intent(Some("1500000"));
    let r = orch.process_sui_to_evm(
        &mut intent,
        "nonce-9".to_string(),
        Err(CctpError::Api { status: 500, message: "boom".to_string() }),
    );
    assert_eq!(
        r.unwrap_err(),
        OrchestratorError::Cctp(CctpError::Api { status: 500, message: "boom".to_string() })
    );
    assert_eq!(intent.status, IntentStatus::Bridging);
    assert_eq!(intent.bridge_nonce, Some("nonce-9".to_string()));
}

//! Intent lifecycle: construction, status walks, and the API renderings.

use naisu::chain::EvmChain;
use naisu::intent::{Direction, Intent, IntentStatus};
use naisu::strategy::YieldStrategy;

fn fresh_evm_to_sui() -> Intent {
    Intent::new_evm_to_sui(
        "0xid".to_string(),
        "0xsource".to_string(),
        "0xdest".to_string(),
        EvmChain::BaseSepolia,
        "0xtoken".to_string(),
        "1000".to_string(),
        YieldStrategy::ScallopUsdc,
        1_700_000_000,
    )
}

fn fresh_sui_to_evm() -> Intent {
    Intent::new_sui_to_evm(
        "0xid".to_string(),
        "0xsource".to_string(),
        "0xdest".to_string(),
        EvmChain::BaseSepolia,
        "0xtoken".to_string(),
        "1000".to_string(),
        1_700_000_000,
    )
}

#[test]
fn new_intents_start_pending() {
    let a = fresh_evm_to_sui();
    assert_eq!(a.status, IntentStatus::Pending);
    assert_eq!(a.direction, Direction::EvmToSui);
    assert_eq!(a.strategy, Some(YieldStrategy::ScallopUsdc));
    assert!(a.usdc_amount.is_none());
    assert!(a.bridge_nonce.is_none());

    let b = fresh_sui_to_evm();
    assert_eq!(b.status, IntentStatus::Pending);
    assert_eq!(b.direction, Direction::SuiToEvm);
    assert!(b.strategy.is_none());
}

#[test]
fn full_evm_to_sui_walk_is_accepted() {
    let mut intent = fresh_evm_to_sui();
    intent.usdc_amount = Some("1500000".to_string());
    assert!(intent.set_status(IntentStatus::SwapCompleted));
    intent.bridge_nonce = Some("nonce-1".to_string());
    assert!(intent.set_status(IntentStatus::Bridging));
    assert!(intent.set_status(IntentStatus::BridgeCompleted));
    assert!(intent.set_status(IntentStatus::Deposited));
    assert!(intent.set_status(IntentStatus::Completed));
    assert_eq!(intent.status, IntentStatus::Completed);
}

#[test]
fn full_sui_to_evm_walk_is_accepted() {
    let mut intent = fresh_sui_to_evm();
    intent.usdc_amount = Some("1500000".to_string());
    intent.bridge_nonce = Some("nonce-1".to_string());
    assert!(intent.set_status(IntentStatus::Bridging));
    assert!(intent.set_status(IntentStatus::BridgeCompleted));
    assert!(intent.set_status(IntentStatus::Completed));
}

#[test]
fn backward_and_skipped_transitions_are_refused() {
    let mut intent = fresh_evm_to_sui();
    intent.usdc_amount = Some("1".to_string());

    // Skipping a state is refused.
    assert!(!intent.set_status(IntentStatus::BridgeCompleted));
    assert_eq!(intent.status, IntentStatus::Pending);

    assert!(intent.set_status(IntentStatus::SwapCompleted));
    // Going backward is refused.
    assert!(!intent.set_status(IntentStatus::Pending));
    assert_eq!(intent.status, IntentStatus::SwapCompleted);
}

#[test]
fn terminal_states_have_no_exit() {
    let mut intent = fresh_evm_to_sui();
    assert!(intent.set_status(IntentStatus::Failed));
    assert!(!intent.set_status(IntentStatus::Bridging));
    assert!(!intent.set_status(IntentStatus::Cancelled));
    assert_eq!(intent.status, IntentStatus::Failed);

    let mut other = fresh_evm_to_sui();
    assert!(other.set_status(IntentStatus::Cancelled));
    assert!(!other.set_status(IntentStatus::Failed));
    assert_eq!(other.status, IntentStatus::Cancelled);
}

#[test]
fn bridging_needs_a_known_amount() {
    let mut intent = fresh_sui_to_evm();
    // No usdc_amount recorded: bridging may not begin.
    assert!(!intent.set_status(IntentStatus::Bridging));
    intent.usdc_amount = Some("5".to_string());
    assert!(intent.set_status(IntentStatus::Bridging));
    // No nonce recorded: the bridge may not complete.
    assert!(!intent.set_status(IntentStatus::BridgeCompleted));
    intent.bridge_nonce = Some("n".to_string());
    assert!(intent.set_status(IntentStatus::BridgeCompleted));
}

#[test]
fn direction_gates_swap_and_deposit_states() {
    let mut intent = fresh_sui_to_evm();
    assert!(!intent.set_status(IntentStatus::SwapCompleted));
    intent.usdc_amount = Some("5".to_string());
    intent.bridge_nonce = Some("n".to_string());
    assert!(intent.set_status(IntentStatus::Bridging));
    assert!(intent.set_status(IntentStatus::BridgeCompleted));
    // The deposit state belongs to the EVM-to-Sui flow only.
    assert!(!intent.set_status(IntentStatus::Deposited));
    assert!(intent.set_status(IntentStatus::Completed));
}

#[test]
fn status_and_direction_names() {
    assert_eq!(IntentStatus::Pending.as_str(), "pending");
    assert_eq!(IntentStatus::SwapCompleted.as_str(), "swap_completed");
    assert_eq!(IntentStatus::Bridging.as_str(), "bridging");
    assert_eq!(IntentStatus::BridgeCompleted.as_str(), "bridge_completed");
    assert_eq!(IntentStatus::Deposited.as_str(), "deposited");
    assert_eq!(IntentStatus::Completed.as_str(), "completed");
    assert_eq!(IntentStatus::Failed.as_str(), "failed");
    assert_eq!(IntentStatus::Cancelled.as_str(), "cancelled");
    assert_eq!(Direction::EvmToSui.as_str(), "EvmToSui");
    assert_eq!(Direction::SuiToEvm.as_str(), "SuiToEvm");
}

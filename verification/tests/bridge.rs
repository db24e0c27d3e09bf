//! Bridge protocol client: parameter builders, attestation resolution, and
//! the bounded poll.

use naisu::cctp::{
    poll_attestation, resolve_attestation, AttestationData, AttestationPoll, AttestationResponse,
    BridgeChain, CctpAttestation, CctpClient, CctpError, DestChain, PollStep, CCTP_DOMAIN_BASE,
    CCTP_DOMAIN_SUI, MESSAGE_TRANSMITTER_BASE_SEPOLIA, TOKEN_MESSENGER_BASE_SEPOLIA,
    USDC_BASE_SEPOLIA,
};

#[test]
fn deposit_for_burn_params_carry_the_request() {
    let client = CctpClient::testnet();
    let params = client.build_deposit_for_burn_params(1_500_000, 10, "0xabc...");
    assert_eq!(params.amount, 1_500_000);
    assert_eq!(params.destination_domain, 10);
    assert_eq!(params.destination_address, "0xabc...");
    assert_eq!(params.token_messenger, TOKEN_MESSENGER_BASE_SEPOLIA);
    assert_eq!(params.usdc_address, USDC_BASE_SEPOLIA);
}

#[test]
fn client_flavours_pick_their_endpoint() {
    let t = CctpClient::testnet();
    assert!(t.testnet);
    assert_eq!(t.attestation_url, "https://iris-api-sandbox.circle.com/v1");
    let m = CctpClient::mainnet();
    assert!(!m.testnet);
    assert_eq!(m.attestation_url, "https://attestation.circle.com/v1");
}

#[test]
fn receive_message_params_route_by_destination() {
    let client = CctpClient::testnet();
    let att = CctpAttestation {
        message: "0xmsg".to_string(),
        attestation_signature: "0xsig".to_string(),
    };
    let evm = client.build_receive_message_params(&att, DestChain::BaseSepolia);
    assert_eq!(evm.message_transmitter, MESSAGE_TRANSMITTER_BASE_SEPOLIA);
    assert_eq!(evm.message, "0xmsg");
    assert_eq!(evm.attestation_signature, "0xsig");
    let sui = client.build_receive_message_params(&att, DestChain::Sui);
    assert_eq!(sui.message_transmitter, "");
}

#[test]
fn domain_registry_is_order_independent() {
    // One order...
    assert_eq!(BridgeChain::Base.domain_id(), 5);
    assert_eq!(BridgeChain::Sui.domain_id(), 10);
    // ...and the other.
    assert_eq!(BridgeChain::Sui.domain_id(), 10);
    assert_eq!(BridgeChain::Base.domain_id(), 5);
    assert_eq!(CCTP_DOMAIN_BASE, 5);
    assert_eq!(CCTP_DOMAIN_SUI, 10);
    assert_eq!(BridgeChain::Ethereum.domain_id(), 0);
    assert_eq!(BridgeChain::Avalanche.domain_id(), 1);
    assert_eq!(BridgeChain::Optimism.domain_id(), 2);
    assert_eq!(BridgeChain::Arbitrum.domain_id(), 3);
}

fn complete_data() -> AttestationData {
    AttestationData {
        message: "0xmsg".to_string(),
        attestation_signature: "0xsig".to_string(),
        status: "complete".to_string(),
    }
}

#[test]
fn not_found_resolves_empty_not_error() {
    assert_eq!(resolve_attestation(&AttestationResponse::NotFound), Ok(None));
}

#[test]
fn incomplete_record_resolves_empty() {
    let mut data = complete_data();
    data.status = "pending_confirmations".to_string();
    let resolved = resolve_attestation(&AttestationResponse::Success { data: Some(data) });
    assert_eq!(resolved, Ok(None));
    let absent = resolve_attestation(&AttestationResponse::Success { data: None });
    assert_eq!(absent, Ok(None));
}

#[test]
fn complete_record_resolves_to_the_attestation() {
    let resolved =
        resolve_attestation(&AttestationResponse::Success { data: Some(complete_data()) });
    let att = resolved.unwrap().unwrap();
    assert_eq!(att.message, "0xmsg");
    assert_eq!(att.attestation_signature, "0xsig");
}

#[test]
fn failure_response_is_a_hard_api_error() {
    let resolved = resolve_attestation(&AttestationResponse::Failure {
        status: 503,
        body: "unavailable".to_string(),
    });
    assert_eq!(
        resolved,
        Err(CctpError::Api { status: 503, message: "unavailable".to_string() })
    );
}

#[test]
fn unparsable_body_is_a_parse_error() {
    let resolved =
        resolve_attestation(&AttestationResponse::Unparsable { detail: "bad json".to_string() });
    assert_eq!(resolved, Err(CctpError::Parse("bad json".to_string())));
}

#[test]
fn poll_times_out_after_exactly_three_lookups() {
    let responses = vec![
        AttestationResponse::NotFound,
        AttestationResponse::NotFound,
        AttestationResponse::NotFound,
    ];
    let (result, lookups) = poll_attestation(3, &responses);
    assert_eq!(result, Err(CctpError::AttestationTimeout));
    assert_eq!(lookups, 3);
}

#[test]
fn poll_returns_as_soon_as_an_attempt_succeeds() {
    let responses = vec![
        AttestationResponse::NotFound,
        AttestationResponse::Success { data: Some(complete_data()) },
        AttestationResponse::NotFound,
    ];
    let (result, lookups) = poll_attestation(3, &responses);
    let att = result.unwrap();
    assert_eq!(att.message, "0xmsg");
    assert_eq!(lookups, 2);
}

#[test]
fn poll_propagates_service_errors_immediately() {
    let responses = vec![
        AttestationResponse::Failure { status: 500, body: "boom".to_string() },
        AttestationResponse::NotFound,
        AttestationResponse::NotFound,
    ];
    let (result, lookups) = poll_attestation(3, &responses);
    assert_eq!(result, Err(CctpError::Api { status: 500, message: "boom".to_string() }));
    assert_eq!(lookups, 1);
}

#[test]
fn poll_step_machine_drives_the_retry() {
    let mut poll = AttestationPoll::new(3);
    match poll.next(&AttestationResponse::NotFound) {
        PollStep::Retry => {}
        other => panic!("expected a retry, got {:?}", other),
    }
    match poll.next(&AttestationResponse::NotFound) {
        PollStep::Retry => {}
        other => panic!("expected a retry, got {:?}", other),
    }
    match poll.next(&AttestationResponse::NotFound) {
        PollStep::Failed(CctpError::AttestationTimeout) => {}
        other => panic!("expected a timeout, got {:?}", other),
    }
    assert_eq!(poll.attempts_made, 3);
}

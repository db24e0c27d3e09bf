//! Log decoding, hex rendering, decimal strings, and the poll-mode cursor.

use naisu::decimal::{parse_u64, u128_to_dec};
use naisu::event::decode_intent_created;
use naisu::hexstr::hex_0x;
use naisu::ingest::{ingest_mode, BlockCursor, BlockRange, HookIntentStatus, IngestMode};

fn word(fill: &[(usize, u8)]) -> Vec<u8> {
    let mut w = vec![0u8; 32];
    for &(i, b) in fill {
        w[i] = b;
    }
    w
}

/// A well-formed IntentCreated log: three topics and six data words.
fn sample_log() -> (Vec<Vec<u8>>, Vec<u8>) {
    let sig = vec![0xaau8; 32];
    let mut intent_id = vec![0u8; 32];
    intent_id[31] = 0x07;
    let mut user = vec![0u8; 32];
    for i in 12..32 {
        user[i] = 0x11;
    }
    let mut data = Vec::new();
    // suiDestination: 32 arbitrary bytes
    data.extend_from_slice(&vec![0x22u8; 32]);
    // inputToken: 12 zero bytes then 20 address bytes
    data.extend_from_slice(&word(&[(12, 0x33), (31, 0x44)]));
    // inputAmount: 2_000_000
    data.extend_from_slice(&word(&[(29, 0x1e), (30, 0x84), (31, 0x80)]));
    // usdcAmount: 1_500_000
    data.extend_from_slice(&word(&[(29, 0x16), (30, 0xe3), (31, 0x60)]));
    // strategyId: 3
    data.extend_from_slice(&word(&[(31, 3)]));
    // timestamp: 1_700_000_000 = 0x6553_F100
    data.extend_from_slice(&word(&[(28, 0x65), (29, 0x53), (30, 0xf1), (31, 0x00)]));
    (vec![sig, intent_id, user], data)
}

#[test]
fn well_formed_log_decodes_canonically() {
    let (topics, data) = sample_log();
    let ev = decode_intent_created(&topics, &data).unwrap();
    assert_eq!(
        ev.intent_id,
        "0x0000000000000000000000000000000000000000000000000000000000000007"
    );
    assert_eq!(ev.user, "0x1111111111111111111111111111111111111111");
    assert_eq!(
        ev.sui_destination,
        "0x2222222222222222222222222222222222222222222222222222222222222222"
    );
    assert_eq!(ev.input_token, "0x3300000000000000000000000000000000000044");
    assert_eq!(ev.input_amount, "2000000");
    assert_eq!(ev.usdc_amount, "1500000");
    assert_eq!(ev.strategy_id, 3);
    assert_eq!(ev.timestamp, 1_700_000_000);
}

#[test]
fn malformed_logs_are_skipped() {
    let (topics, data) = sample_log();

    // Too few topics.
    assert!(decode_intent_created(&topics[..2].to_vec(), &data).is_none());

    // A topic of the wrong width.
    let mut short_id = topics.clone();
    short_id[1] = vec![0u8; 31];
    assert!(decode_intent_created(&short_id, &data).is_none());

    // A data section of the wrong width.
    assert!(decode_intent_created(&topics, &data[..191].to_vec()).is_none());

    // Junk in the user topic's padding.
    let mut bad_user = topics.clone();
    bad_user[2][0] = 1;
    assert!(decode_intent_created(&bad_user, &data).is_none());

    // A strategy id beyond one byte.
    let mut bad_strategy = data.clone();
    bad_strategy[128 + 30] = 1;
    assert!(decode_intent_created(&topics, &bad_strategy).is_none());

    // An amount beyond sixteen bytes.
    let mut bad_amount = data.clone();
    bad_amount[64] = 1;
    assert!(decode_intent_created(&topics, &bad_amount).is_none());
}

#[test]
fn hex_rendering_is_lowercase_and_prefixed() {
    assert_eq!(hex_0x(&vec![0xde, 0xad, 0xbe, 0xef]), "0xdeadbeef");
    assert_eq!(hex_0x(&vec![]), "0x");
    assert_eq!(hex_0x(&vec![0x00, 0x0f, 0xa0]), "0x000fa0");
}

#[test]
fn decimal_rendering_is_canonical() {
    assert_eq!(u128_to_dec(0), "0");
    assert_eq!(u128_to_dec(7), "7");
    assert_eq!(u128_to_dec(1_500_000), "1500000");
    assert_eq!(
        u128_to_dec(u128::MAX),
        "340282366920938463463374607431768211455"
    );
}

#[test]
fn parse_u64_accepts_plain_digit_strings_only() {
    assert_eq!(parse_u64("0"), Some(0));
    assert_eq!(parse_u64("1500000"), Some(1_500_000));
    assert_eq!(parse_u64("18446744073709551615"), Some(u64::MAX));
    assert_eq!(parse_u64("18446744073709551616"), None);
    assert_eq!(parse_u64(""), None);
    assert_eq!(parse_u64("12a"), None);
    assert_eq!(parse_u64("-5"), None);
    assert_eq!(parse_u64("1.5"), None);
}

#[test]
fn ingest_mode_follows_the_endpoint_scheme() {
    assert_eq!(ingest_mode("ws://node.example/rpc"), IngestMode::Push);
    assert_eq!(ingest_mode("wss://node.example/rpc"), IngestMode::Push);
    assert_eq!(ingest_mode("https://node.example/rpc"), IngestMode::Poll);
    assert_eq!(ingest_mode("http://localhost:8545"), IngestMode::Poll);
    assert_eq!(ingest_mode(""), IngestMode::Poll);
}

#[test]
fn idle_tick_issues_no_query_and_keeps_the_cursor() {
    let mut cursor = BlockCursor::new(100);
    assert_eq!(cursor.tick(100), None);
    assert_eq!(cursor.last_seen_block, 100);
    // A behind chain (reorg view) also queries nothing.
    assert_eq!(cursor.tick(99), None);
    assert_eq!(cursor.last_seen_block, 100);
}

#[test]
fn advancing_tick_scans_exactly_the_new_blocks() {
    let mut cursor = BlockCursor::new(100);
    assert_eq!(cursor.tick(103), Some(BlockRange { from_block: 101, to_block: 103 }));
    assert_eq!(cursor.last_seen_block, 103);
    assert_eq!(cursor.tick(104), Some(BlockRange { from_block: 104, to_block: 104 }));
    assert_eq!(cursor.last_seen_block, 104);
}

#[test]
fn hook_status_codes_map_to_states() {
    assert_eq!(HookIntentStatus::from(0), HookIntentStatus::Pending);
    assert_eq!(HookIntentStatus::from(1), HookIntentStatus::SwapCompleted);
    assert_eq!(HookIntentStatus::from(2), HookIntentStatus::Bridging);
    assert_eq!(HookIntentStatus::from(3), HookIntentStatus::Completed);
    assert_eq!(HookIntentStatus::from(4), HookIntentStatus::Failed);
    assert_eq!(HookIntentStatus::from(5), HookIntentStatus::Cancelled);
    assert_eq!(HookIntentStatus::from(99), HookIntentStatus::Pending);
}

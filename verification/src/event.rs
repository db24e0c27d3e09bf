//! Canonical intent-creation event records, decoded from source-chain logs.
//!
//! A log carries the event as three topics (signature, intent id, user) and
//! a data section of six 32-byte big-endian words (destination, input token,
//! input amount, bridged amount, strategy id, timestamp). Decoding is pure
//! byte logic and fully verified; fetching logs is the transport's job.

use vstd::prelude::*;

use crate::decimal::{dec_str, u128_to_dec};
use crate::hexstr::{hex_0x, hex_with_prefix};

verus! {

/// Big-endian value of a byte string.
pub open spec fn be_bytes_value(s: Seq<u8>) -> nat
    decreases s.len(),
{
    if s.len() == 0 {
        0
    } else {
        be_bytes_value(s.drop_last()) * 256 + s.last() as nat
    }
}

pub open spec fn pow256(k: nat) -> nat
    decreases k,
{
    if k == 0 {
        1
    } else {
        256 * pow256((k - 1) as nat)
    }
}

proof fn lemma_pow256_mono(a: nat, b: nat)
    requires
        a <= b,
    ensures
        pow256(a) <= pow256(b),
    decreases b,
{
    if a < b {
        lemma_pow256_mono(a, (b - 1) as nat);
    }
}

proof fn lemma_be_step(s: Seq<u8>, i: int)
    requires
        0 <= i < s.len(),
    ensures
        be_bytes_value(s.subrange(0, i + 1)) == be_bytes_value(s.subrange(0, i)) * 256 + s[i],
{
    let pre = s.subrange(0, i + 1);
    assert(pre.drop_last() =~= s.subrange(0, i));
    assert(pre.last() == s[i]);
}

proof fn lemma_be_bound(s: Seq<u8>)
    ensures
        be_bytes_value(s) < pow256(s.len()),
    decreases s.len(),
{
    if s.len() > 0 {
        lemma_be_bound(s.drop_last());
    }
}

pub open spec fn all_zero(s: Seq<u8>) -> bool {
    forall|i: int| 0 <= i < s.len() ==> s[i] == 0
}

/// Whether every byte of `data[start..end]` is zero.
fn all_zero_range(data: &Vec<u8>, start: usize, end: usize) -> (r: bool)
    requires
        start <= end <= data@.len(),
    ensures
        r == all_zero(data@.subrange(start as int, end as int)),
{
    let mut i: usize = start;
    while i < end
        invariant
            start <= i <= end <= data@.len(),
            forall|j: int| start <= j < i ==> data@[j] == 0,
        decreases end - i,
    {
        if *data.get(i).unwrap() != 0 {
            proof {
                assert(data@.subrange(start as int, end as int)[i - start] != 0);
            }
            return false;
        }
        i = i + 1;
    }
    proof {
        assert forall|j: int| 0 <= j < end - start implies data@.subrange(
            start as int,
            end as int,
        )[j] == 0 by {
            assert(data@.subrange(start as int, end as int)[j] == data@[start + j]);
        }
    }
    true
}

/// Copy `data[start..end]` out as its own byte vector.
fn sub_bytes(data: &Vec<u8>, start: usize, end: usize) -> (r: Vec<u8>)
    requires
        start <= end <= data@.len(),
    ensures
        r@ == data@.subrange(start as int, end as int),
{
    let mut out: Vec<u8> = Vec::new();
    let mut i: usize = start;
    while i < end
        invariant
            start <= i <= end <= data@.len(),
            out@ =~= data@.subrange(start as int, i as int),
        decreases end - i,
    {
        out.push(*data.get(i).unwrap());
        proof {
            assert(out@ =~= data@.subrange(start as int, i + 1));
        }
        i = i + 1;
    }
    out
}

/// Big-endian value of `data[start..end]`, for ranges of at most 16 bytes.
fn be_range_u128(data: &Vec<u8>, start: usize, end: usize) -> (r: u128)
    requires
        start <= end <= data@.len(),
        end - start <= 16,
    ensures
        r as nat == be_bytes_value(data@.subrange(start as int, end as int)),
{
    let ghost w = data@.subrange(start as int, end as int);
    let mut acc: u128 = 0;
    let mut i: usize = 0;
    while i < end - start
        invariant
            start <= end <= data@.len(),
            end - start <= 16,
            0 <= i <= end - start,
            w == data@.subrange(start as int, end as int),
            acc as nat == be_bytes_value(w.subrange(0, i as int)),
        decreases end - start - i,
    {
        let b = *data.get(start + i).unwrap();
        proof {
            assert(w[i as int] == data@[start + i]);
            lemma_be_step(w, i as int);
            lemma_be_bound(w.subrange(0, i as int));
            lemma_pow256_mono(i as nat, 15);
            reveal_with_fuel(pow256, 17);
            assert(pow256(15) == 0x1000000000000000000000000000000);
        }
        acc = acc * 256 + (b as u128);
        i = i + 1;
    }
    proof {
        assert(w.subrange(0, w.len() as int) =~= w);
    }
    acc
}

/// An intent-creation event decoded from a source-chain log, in canonical
/// form: byte fields as `0x`-prefixed lowercase hex, amounts as decimal
/// strings.
#[derive(Debug, Clone)]
pub struct IntentCreatedEvent {
    /// 32-byte intent id, hex.
    pub intent_id: String,
    /// 20-byte source address, hex.
    pub user: String,
    /// 32-byte destination (chain-native encoding), hex.
    pub sui_destination: String,
    /// 20-byte input token address, hex.
    pub input_token: String,
    /// Input amount, decimal string in chain-native units.
    pub input_amount: String,
    /// Bridged amount, decimal string in smallest units.
    pub usdc_amount: String,
    pub strategy_id: u8,
    /// Unix seconds.
    pub timestamp: u64,
}

/// Shape a log must have to decode: three topics with 32-byte id and user,
/// six data words, and zero padding wherever the event's types leave a word
/// partly unused (address padding, amounts within 16 bytes, a one-byte
/// strategy id, a timestamp within 8 bytes).
pub open spec fn intent_created_ok(topics: Seq<Vec<u8>>, data: Seq<u8>) -> bool {
    &&& topics.len() == 3
    &&& topics[1]@.len() == 32
    &&& topics[2]@.len() == 32
    &&& data.len() == 192
    &&& all_zero(topics[2]@.subrange(0, 12))
    &&& all_zero(data.subrange(32, 44))
    &&& all_zero(data.subrange(64, 80))
    &&& all_zero(data.subrange(96, 112))
    &&& all_zero(data.subrange(128, 159))
    &&& all_zero(data.subrange(160, 184))
}

/// Decode one intent-creation log into its canonical record. Any log whose
/// shape is off decodes to `None`; the ingestion loop skips such a log and
/// carries on.
pub fn decode_intent_created(topics: &Vec<Vec<u8>>, data: &Vec<u8>) -> (r: Option<
    IntentCreatedEvent,
>)
    ensures
        r is Some <==> intent_created_ok(topics@, data@),
        r matches Some(ev) ==> {
            &&& ev.intent_id@ == hex_with_prefix(topics@[1]@)
            &&& ev.user@ == hex_with_prefix(topics@[2]@.subrange(12, 32))
            &&& ev.sui_destination@ == hex_with_prefix(data@.subrange(0, 32))
            &&& ev.input_token@ == hex_with_prefix(data@.subrange(44, 64))
            &&& ev.input_amount@ == dec_str(be_bytes_value(data@.subrange(80, 96)))
            &&& ev.usdc_amount@ == dec_str(be_bytes_value(data@.subrange(112, 128)))
            &&& ev.strategy_id == data@[159]
            &&& ev.timestamp as nat == be_bytes_value(data@.subrange(184, 192))
        },
{
    if topics.len() != 3 {
        return None;
    }
    if topics.get(1).unwrap().len() != 32 || topics.get(2).unwrap().len() != 32 {
        return None;
    }
    if data.len() != 192 {
        return None;
    }
    if !all_zero_range(topics.get(2).unwrap(), 0, 12) {
        return None;
    }
    if !all_zero_range(data, 32, 44) || !all_zero_range(data, 64, 80) || !all_zero_range(
        data,
        96,
        112,
    ) || !all_zero_range(data, 128, 159) || !all_zero_range(data, 160, 184) {
        return None;
    }

    let intent_id = hex_0x(topics.get(1).unwrap());
    let user_bytes = sub_bytes(topics.get(2).unwrap(), 12, 32);
    let user = hex_0x(&user_bytes);
    let sui_bytes = sub_bytes(data, 0, 32);
    let sui_destination = hex_0x(&sui_bytes);
    let token_bytes = sub_bytes(data, 44, 64);
    let input_token = hex_0x(&token_bytes);
    let input_amount = u128_to_dec(be_range_u128(data, 80, 96));
    let usdc_amount = u128_to_dec(be_range_u128(data, 112, 128));
    let strategy_id = *data.get(159).unwrap();
    let ts = be_range_u128(data, 184, 192);
    proof {
        lemma_be_bound(data@.subrange(184, 192));
        reveal_with_fuel(pow256, 9);
        assert(pow256(8) == 0x10000000000000000);
    }
    let timestamp = ts as u64;
    Some(
        IntentCreatedEvent {
            intent_id,
            user,
            sui_destination,
            input_token,
            input_amount,
            usdc_amount,
            strategy_id,
            timestamp,
        },
    )
}

} // verus!

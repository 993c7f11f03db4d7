//! The canonical byte encoding of the messages that parties sign and that the
//! host hashes. Integers and length prefixes come from `parity_codec`; the
//! framing of each message is this ledger's own.

use vstd::prelude::*;
use crate::bytes::Bytes32;
use crate::types::{Balance, Channel, ChannelBalance, ChannelId, H256};

verus! {

/// The `n` little-endian bytes of `v`, lowest first.
pub open spec fn le_bytes(v: nat, n: nat) -> Seq<u8>
    decreases n,
{
    if n == 0 {
        Seq::empty()
    } else {
        seq![(v % 256) as u8] + le_bytes(v / 256, (n - 1) as nat)
    }
}

/// Relies on parity_codec's `Encode` for `u128`: the value's sixteen
/// little-endian bytes.
#[verifier::external_body]
fn encode_u128(v: u128) -> (r: Vec<u8>)
    ensures
        r@ == le_bytes(v as nat, 16),
{
    parity_codec::Encode::encode(&v)
}

/// Relies on parity_codec's `Encode` for `u64`: the value's eight
/// little-endian bytes.
#[verifier::external_body]
fn encode_u64(v: u64) -> (r: Vec<u8>)
    ensures
        r@ == le_bytes(v as nat, 8),
{
    parity_codec::Encode::encode(&v)
}

/// Relies on parity_codec's `Encode` for `[u8]`: a compact length prefix, one
/// byte `4 * len` below 64 bytes, followed by the bytes themselves.
#[verifier::external_body]
fn encode_byte_string(b: &[u8]) -> (r: Vec<u8>)
    requires
        b@.len() <= u32::MAX,
    ensures
        b@.len() < 64 ==> r@ == seq![(b@.len() * 4) as u8] + b@,
{
    parity_codec::Encode::encode(b)
}

/// Appends the bytes of a 32-byte value.
fn push_bytes32(out: &mut Vec<u8>, a: &Bytes32)
    ensures
        final(out)@ == old(out)@ + a@,
{
    let ghost start = out@;
    let mut i: usize = 0;
    while i < 32
        invariant
            0 <= i <= 32,
            a@.len() == 32,
            out@ == start + a@.subrange(0, i as int),
        decreases 32 - i,
    {
        out.push(a[i]);
        assert(a@.subrange(0, i + 1) == a@.subrange(0, i as int).push(a@[i as int]));
        i = i + 1;
    }
    assert(a@.subrange(0, 32) == a@);
}

/// The encoding of a channel balance: the total, then party A's share.
pub open spec fn balance_bytes(b: ChannelBalance) -> Seq<u8> {
    le_bytes(b.balance as nat, 16) + le_bytes(b.balance_a as nat, 16)
}

/// The encoding of a channel: the index of its state, then its fields.
pub open spec fn channel_bytes(c: Channel) -> Seq<u8> {
    match c {
        Channel::Uninitialized => seq![0u8],
        Channel::Funded(b) => seq![1u8] + balance_bytes(b),
        Channel::Active(b) => seq![2u8] + balance_bytes(b),
        Channel::PendingSettlement(b, t) => seq![3u8] + balance_bytes(b) + le_bytes(t as nat, 8),
    }
}

/// The encoding of a ticket: challenge, revealed pre-image, amount and win
/// probability, in that order.
pub open spec fn ticket_bytes(challenge: H256, pre_image: H256, amount: Balance, win_prob: H256) -> Seq<u8> {
    challenge@ + pre_image@ + le_bytes(amount as nat, 16) + win_prob@
}

/// The ASCII text that sets recovery messages apart from every other signed
/// message.
pub open spec fn recovery_tag() -> Seq<u8> {
    seq![
        114u8, 101u8, 115u8, 116u8, 111u8, 114u8, 101u8, 95u8, 116u8, 114u8,
        97u8, 110u8, 115u8, 97u8, 99u8, 116u8, 105u8, 111u8, 110u8,
    ]
}

/// The message that a counterparty signs to agree on a balance that either
/// party may later settle on: the length-prefixed tag, the channel and the
/// balance.
pub open spec fn recovery_bytes(id: ChannelId, b: ChannelBalance) -> Seq<u8> {
    seq![(recovery_tag().len() * 4) as u8] + recovery_tag() + id@ + balance_bytes(b)
}

/// Encodes a channel balance.
pub fn encode_balance(b: &ChannelBalance) -> (r: Vec<u8>)
    ensures
        r@ == balance_bytes(*b),
{
    let mut out = encode_u128(b.balance);
    let mut rest = encode_u128(b.balance_a);
    out.append(&mut rest);
    out
}

/// Encodes a channel, as a counterparty signs it to activate the channel.
pub fn encode_channel(c: &Channel) -> (r: Vec<u8>)
    ensures
        r@ == channel_bytes(*c),
{
    match c {
        Channel::Uninitialized => vec![0u8],
        Channel::Funded(b) => {
            let mut out = vec![1u8];
            let mut rest = encode_balance(b);
            out.append(&mut rest);
            out
        },
        Channel::Active(b) => {
            let mut out = vec![2u8];
            let mut rest = encode_balance(b);
            out.append(&mut rest);
            out
        },
        Channel::PendingSettlement(b, t) => {
            let mut out = vec![3u8];
            let mut rest = encode_balance(b);
            out.append(&mut rest);
            let mut deadline = encode_u64(*t);
            out.append(&mut deadline);
            out
        },
    }
}

/// Encodes a pair of 32-byte values, the first one first.
pub fn encode_pair(a: &Bytes32, b: &Bytes32) -> (r: Vec<u8>)
    ensures
        r@ == a@ + b@,
{
    let mut out: Vec<u8> = Vec::new();
    push_bytes32(&mut out, a);
    push_bytes32(&mut out, b);
    out
}

/// Encodes a ticket, as the counterparty signs it and the host hashes it.
pub fn encode_ticket(challenge: &H256, pre_image: &H256, amount: Balance, win_prob: &H256) -> (r: Vec<u8>)
    ensures
        r@ == ticket_bytes(*challenge, *pre_image, amount, *win_prob),
{
    let mut out: Vec<u8> = Vec::new();
    push_bytes32(&mut out, challenge);
    push_bytes32(&mut out, pre_image);
    let mut amount_bytes = encode_u128(amount);
    out.append(&mut amount_bytes);
    push_bytes32(&mut out, win_prob);
    out
}

/// Encodes the recovery message for a channel and an agreed balance.
pub fn encode_recovery(id: &ChannelId, b: &ChannelBalance) -> (r: Vec<u8>)
    ensures
        r@ == recovery_bytes(*id, *b),
{
    let tag: Vec<u8> = vec![
        114u8, 101u8, 115u8, 116u8, 111u8, 114u8, 101u8, 95u8, 116u8, 114u8,
        97u8, 110u8, 115u8, 97u8, 99u8, 116u8, 105u8, 111u8, 110u8,
    ];
    assert(tag@ == recovery_tag());
    let mut out = encode_byte_string(tag.as_slice());
    push_bytes32(&mut out, id);
    let mut rest = encode_balance(b);
    out.append(&mut rest);
    out
}

} // verus!

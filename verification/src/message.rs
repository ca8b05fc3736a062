//! Canonical byte encodings of the claims that the authority signs.
//!
//! Field order and byte order are part of the protocol: identities are
//! written as their 32 bytes, integers as 8 bytes, little-endian.

use vstd::prelude::*;
use vstd::bytes::{
    lemma_auto_spec_u64_to_from_le_bytes, spec_u64_from_le_bytes, spec_u64_to_le_bytes,
    u64_to_le_bytes,
};
use crate::bytes::append_bytes;
use crate::state::Identity;

verus! {

/// Length in bytes of the message of a standard claim.
pub const CLAIM_MESSAGE_LEN: usize = 176;

/// Length in bytes of the message of a rank claim.
pub const CLAIM_RANK_MESSAGE_LEN: usize = 104;

/// The message of a standard claim: payer, the three recipient accounts,
/// order type, the three amounts, timestamp and nonce.
pub open spec fn claim_message(
    payer: Seq<u8>,
    output_one: Seq<u8>,
    output_two: Seq<u8>,
    output_three: Seq<u8>,
    order_type: u64,
    amount_one: u64,
    amount_two: u64,
    amount_three: u64,
    timestamp: u64,
    nonce: u64,
) -> Seq<u8> {
    payer + output_one + output_two + output_three + spec_u64_to_le_bytes(order_type)
        + spec_u64_to_le_bytes(amount_one) + spec_u64_to_le_bytes(amount_two)
        + spec_u64_to_le_bytes(amount_three) + spec_u64_to_le_bytes(timestamp)
        + spec_u64_to_le_bytes(nonce)
}

/// The message of a rank claim: payer, the recipient account, start and end
/// time, amount, timestamp and nonce.
pub open spec fn claim_rank_message(
    payer: Seq<u8>,
    output_one: Seq<u8>,
    start_time: u64,
    end_time: u64,
    amount: u64,
    timestamp: u64,
    nonce: u64,
) -> Seq<u8> {
    payer + output_one + spec_u64_to_le_bytes(start_time) + spec_u64_to_le_bytes(end_time)
        + spec_u64_to_le_bytes(amount) + spec_u64_to_le_bytes(timestamp) + spec_u64_to_le_bytes(
        nonce,
    )
}

fn append_u64(dst: &mut Vec<u8>, value: u64)
    ensures
        final(dst)@ == old(dst)@ + spec_u64_to_le_bytes(value),
{
    let encoded = u64_to_le_bytes(value);
    append_bytes(dst, encoded.as_slice());
}

/// Builds the message of a standard claim.
pub fn build_claim_message(
    payer: &Identity,
    output_one: &Identity,
    output_two: &Identity,
    output_three: &Identity,
    order_type: u64,
    amount_one: u64,
    amount_two: u64,
    amount_three: u64,
    timestamp: u64,
    nonce: u64,
) -> (msg: Vec<u8>)
    ensures
        msg@ == claim_message(
            payer@,
            output_one@,
            output_two@,
            output_three@,
            order_type,
            amount_one,
            amount_two,
            amount_three,
            timestamp,
            nonce,
        ),
        msg@.len() == CLAIM_MESSAGE_LEN,
{
    let mut msg: Vec<u8> = Vec::new();
    append_bytes(&mut msg, payer.bytes.as_slice());
    append_bytes(&mut msg, output_one.bytes.as_slice());
    append_bytes(&mut msg, output_two.bytes.as_slice());
    append_bytes(&mut msg, output_three.bytes.as_slice());
    append_u64(&mut msg, order_type);
    append_u64(&mut msg, amount_one);
    append_u64(&mut msg, amount_two);
    append_u64(&mut msg, amount_three);
    append_u64(&mut msg, timestamp);
    append_u64(&mut msg, nonce);
    proof {
        lemma_auto_spec_u64_to_from_le_bytes();
        assert(Seq::<u8>::empty() + payer@ =~= payer@);
    }
    msg
}

/// Builds the message of a rank claim.
pub fn build_claim_rank_message(
    payer: &Identity,
    output_one: &Identity,
    start_time: u64,
    end_time: u64,
    amount: u64,
    timestamp: u64,
    nonce: u64,
) -> (msg: Vec<u8>)
    ensures
        msg@ == claim_rank_message(
            payer@,
            output_one@,
            start_time,
            end_time,
            amount,
            timestamp,
            nonce,
        ),
        msg@.len() == CLAIM_RANK_MESSAGE_LEN,
{
    let mut msg: Vec<u8> = Vec::new();
    append_bytes(&mut msg, payer.bytes.as_slice());
    append_bytes(&mut msg, output_one.bytes.as_slice());
    append_u64(&mut msg, start_time);
    append_u64(&mut msg, end_time);
    append_u64(&mut msg, amount);
    append_u64(&mut msg, timestamp);
    append_u64(&mut msg, nonce);
    proof {
        lemma_auto_spec_u64_to_from_le_bytes();
        assert(Seq::<u8>::empty() + payer@ =~= payer@);
    }
    msg
}

/// Two concatenations with left parts of one length are equal only if both
/// parts are.
pub proof fn lemma_concat_parts(a: Seq<u8>, b: Seq<u8>, c: Seq<u8>, d: Seq<u8>)
    requires
        a + b == c + d,
        a.len() == c.len(),
    ensures
        a == c,
        b == d,
{
    assert(a =~= (a + b).subrange(0, a.len() as int));
    assert(c =~= (c + d).subrange(0, c.len() as int));
    assert(b =~= (a + b).subrange(a.len() as int, (a + b).len() as int));
    assert(d =~= (c + d).subrange(c.len() as int, (c + d).len() as int));
}

/// Two concatenations that end in an encoded integer are equal only if the
/// parts before it and the integers are.
pub proof fn lemma_concat_u64(a: Seq<u8>, x: u64, c: Seq<u8>, y: u64)
    requires
        a + spec_u64_to_le_bytes(x) == c + spec_u64_to_le_bytes(y),
    ensures
        a == c,
        x == y,
{
    lemma_auto_spec_u64_to_from_le_bytes();
    let ex = spec_u64_to_le_bytes(x);
    let ey = spec_u64_to_le_bytes(y);
    assert((a + ex).len() == a.len() + 8);
    assert((c + ey).len() == c.len() + 8);
    lemma_concat_parts(a, ex, c, ey);
    assert(spec_u64_from_le_bytes(ex) == x);
    assert(spec_u64_from_le_bytes(ey) == y);
}

/// The encoding of a standard claim is injective: two claims with the same
/// message agree in every field. Any change to a recipient, the order type,
/// an amount, the timestamp or the nonce therefore changes the message.
pub proof fn lemma_claim_message_injective(
    payer: Seq<u8>,
    output_one: Seq<u8>,
    output_two: Seq<u8>,
    output_three: Seq<u8>,
    order_type: u64,
    amount_one: u64,
    amount_two: u64,
    amount_three: u64,
    timestamp: u64,
    nonce: u64,
    payer2: Seq<u8>,
    output_one2: Seq<u8>,
    output_two2: Seq<u8>,
    output_three2: Seq<u8>,
    order_type2: u64,
    amount_one2: u64,
    amount_two2: u64,
    amount_three2: u64,
    timestamp2: u64,
    nonce2: u64,
)
    requires
        payer.len() == 32 && output_one.len() == 32 && output_two.len() == 32 && output_three.len()
            == 32,
        payer2.len() == 32 && output_one2.len() == 32 && output_two2.len() == 32
            && output_three2.len() == 32,
        claim_message(
            payer,
            output_one,
            output_two,
            output_three,
            order_type,
            amount_one,
            amount_two,
            amount_three,
            timestamp,
            nonce,
        ) == claim_message(
            payer2,
            output_one2,
            output_two2,
            output_three2,
            order_type2,
            amount_one2,
            amount_two2,
            amount_three2,
            timestamp2,
            nonce2,
        ),
    ensures
        payer == payer2,
        output_one == output_one2,
        output_two == output_two2,
        output_three == output_three2,
        order_type == order_type2,
        amount_one == amount_one2,
        amount_two == amount_two2,
        amount_three == amount_three2,
        timestamp == timestamp2,
        nonce == nonce2,
{
    let k1 = payer + output_one;
    let k2 = k1 + output_two;
    let k3 = k2 + output_three;
    let f1 = k3 + spec_u64_to_le_bytes(order_type);
    let f2 = f1 + spec_u64_to_le_bytes(amount_one);
    let f3 = f2 + spec_u64_to_le_bytes(amount_two);
    let f4 = f3 + spec_u64_to_le_bytes(amount_three);
    let f5 = f4 + spec_u64_to_le_bytes(timestamp);
    let l1 = payer2 + output_one2;
    let l2 = l1 + output_two2;
    let l3 = l2 + output_three2;
    let g1 = l3 + spec_u64_to_le_bytes(order_type2);
    let g2 = g1 + spec_u64_to_le_bytes(amount_one2);
    let g3 = g2 + spec_u64_to_le_bytes(amount_two2);
    let g4 = g3 + spec_u64_to_le_bytes(amount_three2);
    let g5 = g4 + spec_u64_to_le_bytes(timestamp2);
    lemma_concat_u64(f5, nonce, g5, nonce2);
    lemma_concat_u64(f4, timestamp, g4, timestamp2);
    lemma_concat_u64(f3, amount_three, g3, amount_three2);
    lemma_concat_u64(f2, amount_two, g2, amount_two2);
    lemma_concat_u64(f1, amount_one, g1, amount_one2);
    lemma_concat_u64(k3, order_type, l3, order_type2);
    lemma_concat_parts(k2, output_three, l2, output_three2);
    lemma_concat_parts(k1, output_two, l1, output_two2);
    lemma_concat_parts(payer, output_one, payer2, output_one2);
}

/// The encoding of a rank claim is injective: two claims with the same
/// message agree in every field.
pub proof fn lemma_claim_rank_message_injective(
    payer: Seq<u8>,
    output_one: Seq<u8>,
    start_time: u64,
    end_time: u64,
    amount: u64,
    timestamp: u64,
    nonce: u64,
    payer2: Seq<u8>,
    output_one2: Seq<u8>,
    start_time2: u64,
    end_time2: u64,
    amount2: u64,
    timestamp2: u64,
    nonce2: u64,
)
    requires
        payer.len() == 32 && output_one.len() == 32,
        payer2.len() == 32 && output_one2.len() == 32,
        claim_rank_message(payer, output_one, start_time, end_time, amount, timestamp, nonce)
            == claim_rank_message(
            payer2,
            output_one2,
            start_time2,
            end_time2,
            amount2,
            timestamp2,
            nonce2,
        ),
    ensures
        payer == payer2,
        output_one == output_one2,
        start_time == start_time2,
        end_time == end_time2,
        amount == amount2,
        timestamp == timestamp2,
        nonce == nonce2,
{
    let k1 = payer + output_one;
    let f1 = k1 + spec_u64_to_le_bytes(start_time);
    let f2 = f1 + spec_u64_to_le_bytes(end_time);
    let f3 = f2 + spec_u64_to_le_bytes(amount);
    let f4 = f3 + spec_u64_to_le_bytes(timestamp);
    let l1 = payer2 + output_one2;
    let g1 = l1 + spec_u64_to_le_bytes(start_time2);
    let g2 = g1 + spec_u64_to_le_bytes(end_time2);
    let g3 = g2 + spec_u64_to_le_bytes(amount2);
    let g4 = g3 + spec_u64_to_le_bytes(timestamp2);
    lemma_concat_u64(f4, nonce, g4, nonce2);
    lemma_concat_u64(f3, timestamp, g3, timestamp2);
    lemma_concat_u64(f2, amount, g2, amount2);
    lemma_concat_u64(f1, end_time, g1, end_time2);
    lemma_concat_u64(k1, start_time, l1, start_time2);
    lemma_concat_parts(payer, output_one, payer2, output_one2);
}

} // verus!

//! Decoding of the instruction payload.
//!
//! The payload is the amount to move and nothing else: an unsigned 64-bit
//! integer, as eight bytes in little-endian order.  Every amount is accepted,
//! zero and the largest one included; a bound on the amount is for the token
//! program to enforce.

use crate::error::TransferError;
use vstd::arithmetic::div_mod::{
    lemma_breakdown, lemma_fundamental_div_mod_converse, lemma_small_mod,
};
use vstd::prelude::*;

verus! {

/// Number of bytes in a payload.
pub const AMOUNT_LEN: usize = 8;

/// `256^n`.
pub open spec fn pow256(n: nat) -> nat
    decreases n,
{
    if n == 0 {
        1
    } else {
        256 * pow256((n - 1) as nat)
    }
}

/// The number that `bytes` spell in little-endian order: the byte at index
/// `i` weighs `256^i`.
pub open spec fn le_value(bytes: Seq<u8>) -> nat
    decreases bytes.len(),
{
    if bytes.len() == 0 {
        0
    } else {
        bytes[0] as nat + 256 * le_value(bytes.drop_first())
    }
}

/// The `n` low bytes of `value`, the least significant first.
pub open spec fn le_bytes(value: nat, n: nat) -> Seq<u8>
    decreases n,
{
    if n == 0 {
        Seq::empty()
    } else {
        seq![(value % 256) as u8] + le_bytes(value / 256, (n - 1) as nat)
    }
}

/// `256^n` is positive.
pub proof fn lemma_pow256_positive(n: nat)
    ensures
        pow256(n) > 0,
    decreases n,
{
    if n > 0 {
        lemma_pow256_positive((n - 1) as nat);
    }
}

/// A sequence of `n` bytes spells a number below `256^n`.
pub proof fn lemma_le_value_bound(bytes: Seq<u8>)
    ensures
        le_value(bytes) < pow256(bytes.len()),
    decreases bytes.len(),
{
    if bytes.len() > 0 {
        lemma_le_value_bound(bytes.drop_first());
    }
}

/// The `n` low bytes of a number spell that number modulo `256^n`.
pub proof fn lemma_le_value_of_le_bytes(value: nat, n: nat)
    ensures
        le_bytes(value, n).len() == n,
        le_value(le_bytes(value, n)) == value % pow256(n),
    decreases n,
{
    if n > 0 {
        let rest = le_bytes(value / 256, (n - 1) as nat);
        lemma_le_value_of_le_bytes(value / 256, (n - 1) as nat);
        assert(le_bytes(value, n).drop_first() == rest);
        lemma_pow256_positive((n - 1) as nat);
        lemma_breakdown(value as int, 256, pow256((n - 1) as nat) as int);
    }
}

/// The bytes that a number below `256^n` is spelt with are its `n` low bytes.
pub proof fn lemma_le_bytes_of_le_value(bytes: Seq<u8>)
    ensures
        le_bytes(le_value(bytes), bytes.len()) == bytes,
    decreases bytes.len(),
{
    if bytes.len() > 0 {
        let rest = bytes.drop_first();
        lemma_le_bytes_of_le_value(rest);
        lemma_fundamental_div_mod_converse(
            le_value(bytes) as int,
            256,
            le_value(rest) as int,
            bytes[0] as int,
        );
        assert(seq![bytes[0]] + rest == bytes);
    }
}

/// Decoding inverts encoding: the eight little-endian bytes of an amount
/// spell that amount.
pub proof fn decoding_inverts_encoding(amount: u64)
    ensures
        le_bytes(amount as nat, AMOUNT_LEN as nat).len() == AMOUNT_LEN,
        le_value(le_bytes(amount as nat, AMOUNT_LEN as nat)) == amount,
{
    lemma_le_value_of_le_bytes(amount as nat, 8);
    assert(pow256(8) == 0x1_0000_0000_0000_0000) by {
        reveal_with_fuel(pow256, 9);
    }
    lemma_small_mod(amount as nat, pow256(8));
}

/// The amount is taken from the payload as it stands: payloads of the same
/// length that spell the same amount are the same payload.
pub proof fn equal_amounts_have_equal_payloads(first: Seq<u8>, second: Seq<u8>)
    requires
        first.len() == second.len(),
        le_value(first) == le_value(second),
    ensures
        first == second,
{
    lemma_le_bytes_of_le_value(first);
    lemma_le_bytes_of_le_value(second);
}

/// Decodes the amount from the instruction payload.
///
/// There is no partial decoding and no default: a payload of any length but
/// eight is an error, and a payload of eight bytes always decodes, to the
/// number that its bytes spell.
pub fn decode_amount(payload: &[u8]) -> (res: Result<u64, TransferError>)
    ensures
        match res {
            Ok(amount) => payload@.len() == AMOUNT_LEN && amount == le_value(payload@),
            Err(error) => payload@.len() != AMOUNT_LEN && error
                == TransferError::InvalidInstructionData,
        },
{
    if payload.len() != AMOUNT_LEN {
        return Err(TransferError::InvalidInstructionData);
    }
    let mut amount: u64 = 0;
    let mut i: usize = AMOUNT_LEN;
    while i > 0
        invariant
            payload@.len() == AMOUNT_LEN,
            i <= AMOUNT_LEN,
            amount == le_value(payload@.skip(i as int)),
        decreases i,
    {
        i = i - 1;
        proof {
            let rest = payload@.skip(i as int);
            assert(rest.drop_first() == payload@.skip(i + 1));
            lemma_le_value_bound(rest);
            assert(pow256(rest.len()) <= 0x1_0000_0000_0000_0000) by {
                reveal_with_fuel(pow256, 9);
            }
        }
        amount = amount * 256 + payload[i] as u64;
    }
    assert(payload@.skip(0) == payload@);
    Ok(amount)
}

} // verus!

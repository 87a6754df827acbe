//! Byte strings as numbers: the two encodings that the digest rule reads.

use vstd::arithmetic::div_mod::lemma_div_denominator;
use vstd::arithmetic::power::{lemma_pow_positive, pow};
use vstd::prelude::*;

verus! {

/// `256` raised to `exp`: the weight of the byte at distance `exp` from the
/// least significant end.
pub open spec fn byte_weight(exp: nat) -> int {
    pow(256, exp)
}

/// The number that `bytes` denotes when the first byte is the most significant.
pub open spec fn be_value(bytes: Seq<u8>) -> nat
    decreases bytes.len(),
{
    if bytes.len() == 0 {
        0
    } else {
        be_value(bytes.drop_last()) * 256 + bytes.last() as nat
    }
}

/// The `width` low-order bytes of `value`, least significant first: byte `i` is
/// `value / 256^i mod 256`.
pub open spec fn le_bytes(value: nat, width: nat) -> Seq<u8> {
    Seq::new(width, |i: int| ((value as int / byte_weight(i as nat)) % 256) as u8)
}

/// A byte string of length `n` denotes a number below `256^n`.
pub proof fn lemma_be_value_bound(bytes: Seq<u8>)
    ensures
        be_value(bytes) < byte_weight(bytes.len()),
    decreases bytes.len(),
{
    reveal(pow);
    if bytes.len() > 0 {
        lemma_be_value_bound(bytes.drop_last());
    }
}

/// Sixteen bytes never reach past a `u128`.
pub proof fn lemma_sixteen_bytes_fit(bytes: Seq<u8>)
    requires
        bytes.len() <= 16,
    ensures
        be_value(bytes) <= u128::MAX,
{
    lemma_be_value_bound(bytes);
    lemma_weight_grows(bytes.len(), 16);
    lemma_weight_sixteen();
}

proof fn lemma_weight_grows(low: nat, high: nat)
    requires
        low <= high,
    ensures
        0 < byte_weight(low) <= byte_weight(high),
    decreases high - low,
{
    reveal(pow);
    lemma_pow_positive(256, low);
    if low < high {
        lemma_weight_grows(low, (high - 1) as nat);
    }
}

proof fn lemma_weight_sixteen()
    ensures
        byte_weight(16) == 0x1_0000_0000_0000_0000_0000_0000_0000_0000,
{
    reveal(pow);
    assert(byte_weight(0) == 1);
    assert(byte_weight(1) == 0x100);
    assert(byte_weight(2) == 0x1_0000);
    assert(byte_weight(3) == 0x100_0000);
    assert(byte_weight(4) == 0x1_0000_0000);
    assert(byte_weight(5) == 0x100_0000_0000);
    assert(byte_weight(6) == 0x1_0000_0000_0000);
    assert(byte_weight(7) == 0x100_0000_0000_0000);
    assert(byte_weight(8) == 0x1_0000_0000_0000_0000);
    assert(byte_weight(9) == 0x100_0000_0000_0000_0000);
    assert(byte_weight(10) == 0x1_0000_0000_0000_0000_0000);
    assert(byte_weight(11) == 0x100_0000_0000_0000_0000_0000);
    assert(byte_weight(12) == 0x1_0000_0000_0000_0000_0000_0000);
    assert(byte_weight(13) == 0x100_0000_0000_0000_0000_0000_0000);
    assert(byte_weight(14) == 0x1_0000_0000_0000_0000_0000_0000_0000);
    assert(byte_weight(15) == 0x100_0000_0000_0000_0000_0000_0000_0000);
}

/// Reads the first sixteen bytes of a digest as a big-endian number.
pub fn leading_u128(digest: &[u8; 32]) -> (value: u128)
    ensures
        value == be_value(digest@.subrange(0, 16)),
{
    let mut value: u128 = 0;
    let mut i: usize = 0;
    while i < 16
        invariant
            i <= 16,
            value == be_value(digest@.subrange(0, i as int)),
        decreases 16 - i,
    {
        proof {
            let next = digest@.subrange(0, i + 1);
            assert(next.drop_last() == digest@.subrange(0, i as int));
            assert(next.last() == digest@[i as int]);
            lemma_sixteen_bytes_fit(next);
        }
        value = value * 256 + digest[i] as u128;
        i += 1;
    }
    value
}

/// The eight bytes of a nonce, least significant first.
pub fn nonce_le_bytes(nonce: u64) -> (out: [u8; 8])
    ensures
        out@ == le_bytes(nonce as nat, 8),
{
    let mut out: [u8; 8] = [0u8; 8];
    let mut rest: u64 = nonce;
    let mut i: usize = 0;
    proof {
        reveal(pow);
        assert(byte_weight(0) == 1);
    }
    while i < 8
        invariant
            i <= 8,
            rest == nonce as int / byte_weight(i as nat),
            forall|j: int| 0 <= j < i ==> out@[j] == le_bytes(nonce as nat, 8)[j],
        decreases 8 - i,
    {
        proof {
            reveal(pow);
            lemma_pow_positive(256, i as nat);
            lemma_div_denominator(nonce as int, byte_weight(i as nat), 256);
            assert(byte_weight((i + 1) as nat) == byte_weight(i as nat) * 256) by (nonlinear_arith)
                requires
                    byte_weight((i + 1) as nat) == 256 * byte_weight(i as nat),
            ;
        }
        out[i] = (rest % 256) as u8;
        rest = rest / 256;
        i += 1;
    }
    assert(out@ =~= le_bytes(nonce as nat, 8));
    out
}

} // verus!

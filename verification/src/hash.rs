//! The hash oracle: SHA-256 over the work inputs, in the single-pass form of the
//! challenge path and in the chained form of the global path.

use crate::bytes::{le_bytes, nonce_le_bytes};
use vstd::prelude::*;

verus! {

/// A 32-byte public identity: a miner, an authority, or the address of a
/// stored challenge.
pub type Identity = [u8; 32];

/// A 32-byte digest.
pub type Digest = [u8; 32];

/// How many times the chained form hashes its own output again, after the
/// first digest that binds nonce and miner. Raising it makes every attempt
/// cost more without changing the odds of acceptance.
pub const POW_CHAIN_ROUNDS: u32 = 16;

/// The SHA-256 digest of `data`. It is computed outside this library and not
/// defined here: all that is known of it is that equal inputs give equal
/// digests.
pub uninterp spec fn sha256(data: Seq<u8>) -> Seq<u8>;

/// Calls `anchor_lang::solana_program::hash::hashv` on the single slice `data`
/// and unwraps the 32 bytes of the `Hash` it returns. Believed, not proved:
/// the bytes are the SHA-256 digest of `data`, a function of `data` alone.
#[verifier::external_body]
fn sha256_of(data: &[u8]) -> (digest: Digest)
    ensures
        digest@ == sha256(data@),
{
    anchor_lang::solana_program::hash::hashv(&[data]).to_bytes()
}

/// What the challenge path hashes: seed, then nonce (little-endian), then miner.
pub open spec fn challenge_preimage(seed: [u8; 32], nonce: u64, miner: Identity) -> Seq<u8> {
    seed@ + le_bytes(nonce as nat, 8) + miner@
}

/// What the global path hashes first: nonce (little-endian), then miner.
pub open spec fn legacy_preimage(nonce: u64, miner: Identity) -> Seq<u8> {
    le_bytes(nonce as nat, 8) + miner@
}

/// `digest` hashed again `rounds` times.
pub open spec fn rehashed(digest: Seq<u8>, rounds: nat) -> Seq<u8>
    decreases rounds,
{
    if rounds == 0 {
        digest
    } else {
        sha256(rehashed(digest, (rounds - 1) as nat))
    }
}

/// The chained digest of the global path with `rounds` further rounds.
pub open spec fn chained_digest(nonce: u64, miner: Identity, rounds: nat) -> Seq<u8> {
    rehashed(sha256(legacy_preimage(nonce, miner)), rounds)
}

/// Whether two 32-byte values are the same, byte for byte.
pub fn same_bytes(a: &[u8; 32], b: &[u8; 32]) -> (same: bool)
    ensures
        same == (*a == *b),
{
    let mut i: usize = 0;
    while i < 32
        invariant
            i <= 32,
            forall|j: int| 0 <= j < i ==> a@[j] == b@[j],
        decreases 32 - i,
    {
        if a[i] != b[i] {
            return false;
        }
        i += 1;
    }
    assert(*a =~= *b);
    true
}

fn append_bytes(buf: &mut Vec<u8>, part: &[u8])
    ensures
        final(buf)@ == old(buf)@ + part@,
{
    let mut i: usize = 0;
    while i < part.len()
        invariant
            i <= part@.len(),
            buf@ == old(buf)@ + part@.subrange(0, i as int),
        decreases part@.len() - i,
    {
        buf.push(part[i]);
        assert(part@.subrange(0, i + 1) == part@.subrange(0, i as int).push(part@[i as int]));
        i += 1;
    }
    assert(part@.subrange(0, i as int) == part@);
}

/// The single-pass digest of the challenge path.
pub fn challenge_digest(seed: &[u8; 32], nonce: u64, miner: &Identity) -> (digest: Digest)
    ensures
        digest@ == sha256(challenge_preimage(*seed, nonce, *miner)),
{
    let nonce_bytes: [u8; 8] = nonce_le_bytes(nonce);
    let mut buf: Vec<u8> = Vec::with_capacity(72);
    append_bytes(&mut buf, seed.as_slice());
    append_bytes(&mut buf, nonce_bytes.as_slice());
    append_bytes(&mut buf, miner.as_slice());
    sha256_of(buf.as_slice())
}

/// Hashes `digest` again `rounds` times.
pub fn rehash(digest: Digest, rounds: u32) -> (out: Digest)
    ensures
        out@ == rehashed(digest@, rounds as nat),
{
    let mut out: Digest = digest;
    let mut done: u32 = 0;
    while done < rounds
        invariant
            done <= rounds,
            out@ == rehashed(digest@, done as nat),
        decreases rounds - done,
    {
        out = sha256_of(out.as_slice());
        done += 1;
    }
    out
}

/// The chained digest with a chosen number of further rounds.
pub fn chained_pow(nonce: u64, miner: &Identity, rounds: u32) -> (digest: Digest)
    ensures
        digest@ == chained_digest(nonce, *miner, rounds as nat),
{
    let nonce_bytes: [u8; 8] = nonce_le_bytes(nonce);
    let mut buf: Vec<u8> = Vec::with_capacity(40);
    append_bytes(&mut buf, nonce_bytes.as_slice());
    append_bytes(&mut buf, miner.as_slice());
    let first: Digest = sha256_of(buf.as_slice());
    rehash(first, rounds)
}

/// The chained digest of the global path: `POW_CHAIN_ROUNDS` further rounds.
pub fn recursive_pow(nonce: u64, miner: &Identity) -> (digest: Digest)
    ensures
        digest@ == chained_digest(nonce, *miner, POW_CHAIN_ROUNDS as nat),
{
    chained_pow(nonce, miner, POW_CHAIN_ROUNDS)
}

} // verus!

//! The verifier: it weighs a digest against a target and, only when every
//! check has passed, commits what an accepted solution changes.

use crate::bytes::{be_value, leading_u128};
use crate::challenge::{ChallengeStatus, PowChallenge};
use crate::difficulty::{retargeted, update_difficulty, Difficulty};
use crate::error::ErrorCode;
use crate::hash::{
    chained_digest, challenge_digest, challenge_preimage, recursive_pow, sha256, Digest, Identity,
    POW_CHAIN_ROUNDS,
};
use crate::replay::{distinct_pairs, holds, SolutionRecord, SolutionStore};
use vstd::prelude::*;

verus! {

/// The acceptance rule: the first sixteen bytes of the digest, read as a
/// big-endian number, lie strictly below the target.
pub open spec fn meets(digest: Seq<u8>, target: u128) -> bool
    recommends
        digest.len() >= 16,
{
    be_value(digest.subrange(0, 16)) < target
}

/// The challenge after one more accepted solution: the count goes up by one
/// and stops at the largest `u32`.
pub open spec fn accepted(challenge: PowChallenge) -> PowChallenge {
    PowChallenge {
        authority: challenge.authority,
        seed: challenge.seed,
        difficulty_target: challenge.difficulty_target,
        expires_at: challenge.expires_at,
        solutions_count: if challenge.solutions_count == u32::MAX {
            u32::MAX
        } else {
            (challenge.solutions_count + 1) as u32
        },
        status: challenge.status,
    }
}

/// Why a submission with digest `pow_hash` is refused at time `now`, or `None`
/// when it is accepted. The checks come in this order: status, expiry, proof
/// of work, replay.
pub open spec fn refusal(
    challenge: PowChallenge,
    challenge_key: Identity,
    records: Seq<SolutionRecord>,
    miner: Identity,
    pow_hash: Seq<u8>,
    now: i64,
) -> Option<ErrorCode> {
    if challenge.status != ChallengeStatus::Active {
        Some(ErrorCode::ChallengeNotActive)
    } else if now > challenge.expires_at {
        Some(ErrorCode::ChallengeAlreadyExpired)
    } else if !meets(pow_hash, challenge.difficulty_target) {
        Some(ErrorCode::InvalidProofOfWork)
    } else if holds(records, challenge_key, miner) {
        Some(ErrorCode::DuplicateSubmission)
    } else {
        None
    }
}

/// The record that an accepted submission creates.
pub open spec fn record_of(
    challenge_key: Identity,
    miner: Identity,
    nonce: u64,
    pow_hash: Digest,
    now: i64,
) -> SolutionRecord {
    SolutionRecord { challenge: challenge_key, miner, nonce, pow_hash, submitted_at: now }
}

/// Whether `digest` is accepted under `target`.
pub fn meets_target(digest: &Digest, target: u128) -> (ok: bool)
    ensures
        ok == meets(digest@, target),
{
    leading_u128(digest) < target
}

/// Whether `pow_hash` is accepted under the global target.
pub fn verify_pow(pow_hash: &Digest, difficulty: &Difficulty) -> (ok: bool)
    ensures
        ok == meets(pow_hash@, difficulty.value),
{
    meets_target(pow_hash, difficulty.current_target())
}

/// The first half of a submission on the global path: computes the chained
/// digest of `nonce` and `miner` and weighs it against the global target. On
/// `Ok` the caller owes `miner` a mint and then reports how it went to
/// `settle_pow`; nothing has changed yet.
pub fn submit_pow(difficulty: &Difficulty, miner: &Identity, nonce: u64) -> (checked: Result<
    Digest,
    ErrorCode,
>)
    ensures
        match checked {
            Ok(pow_hash) => pow_hash@ == chained_digest(nonce, *miner, POW_CHAIN_ROUNDS as nat)
                && meets(pow_hash@, difficulty.value),
            Err(e) => e == ErrorCode::InvalidProofOfWork && !meets(
                chained_digest(nonce, *miner, POW_CHAIN_ROUNDS as nat),
                difficulty.value,
            ),
        },
{
    let pow_hash: Digest = recursive_pow(nonce, miner);
    if verify_pow(&pow_hash, difficulty) {
        Ok(pow_hash)
    } else {
        Err(ErrorCode::InvalidProofOfWork)
    }
}

/// The second half of a submission on the global path. A mint that failed
/// aborts the submission and leaves the oracle as it was; one that went
/// through is counted as an acceptance at time `now`.
pub fn settle_pow(difficulty: &mut Difficulty, minted: bool, now: i64) -> (settled: Result<
    (),
    ErrorCode,
>)
    ensures
        minted ==> settled == Ok::<(), ErrorCode>(()) && *final(difficulty) == retargeted(
            *old(difficulty),
            now,
        ),
        !minted ==> settled == Err::<(), ErrorCode>(ErrorCode::MintFailure) && *final(difficulty)
            == *old(difficulty),
{
    if !minted {
        return Err(ErrorCode::MintFailure);
    }
    update_difficulty(difficulty, now);
    Ok(())
}

/// Judges a submission whose digest is already known and commits it when it
/// passes. A refusal changes nothing. An acceptance appends the record to the
/// store, returns it, and counts it on the challenge.
pub fn accept_solution(
    challenge: &mut PowChallenge,
    challenge_key: &Identity,
    store: &mut SolutionStore,
    miner: &Identity,
    nonce: u64,
    pow_hash: Digest,
    now: i64,
) -> (outcome: Result<SolutionRecord, ErrorCode>)
    requires
        old(store).wf(),
    ensures
        final(store).wf(),
        match refusal(*old(challenge), *challenge_key, old(store)@, *miner, pow_hash@, now) {
            Some(e) => outcome == Err::<SolutionRecord, ErrorCode>(e) && *final(challenge) == *old(
                challenge,
            ) && final(store)@ == old(store)@,
            None => outcome == Ok::<SolutionRecord, ErrorCode>(
                record_of(*challenge_key, *miner, nonce, pow_hash, now),
            ) && *final(challenge) == accepted(*old(challenge)) && final(store)@ == old(
                store,
            )@.push(record_of(*challenge_key, *miner, nonce, pow_hash, now)),
        },
        outcome is Ok ==> holds(final(store)@, *challenge_key, *miner),
{
    match challenge.status {
        ChallengeStatus::Active => {},
        _ => {
            return Err(ErrorCode::ChallengeNotActive);
        },
    }
    if now > challenge.expires_at {
        return Err(ErrorCode::ChallengeAlreadyExpired);
    }
    if !meets_target(&pow_hash, challenge.difficulty_target) {
        return Err(ErrorCode::InvalidProofOfWork);
    }
    let record = SolutionRecord {
        challenge: *challenge_key,
        miner: *miner,
        nonce,
        pow_hash,
        submitted_at: now,
    };
    match store.try_create(record) {
        Err(_) => Err(ErrorCode::DuplicateSubmission),
        Ok(_) => {
            challenge.solutions_count = challenge.solutions_count.saturating_add(1);
            Ok(record)
        },
    }
}

/// A submission on the challenge path: the digest of seed, nonce and miner is
/// computed and judged as `accept_solution` judges it.
pub fn submit_challenge_solution(
    challenge: &mut PowChallenge,
    challenge_key: &Identity,
    store: &mut SolutionStore,
    miner: &Identity,
    nonce: u64,
    now: i64,
) -> (outcome: Result<SolutionRecord, ErrorCode>)
    requires
        old(store).wf(),
    ensures
        final(store).wf(),
        match refusal(
            *old(challenge),
            *challenge_key,
            old(store)@,
            *miner,
            sha256(challenge_preimage(old(challenge).seed, nonce, *miner)),
            now,
        ) {
            Some(e) => outcome == Err::<SolutionRecord, ErrorCode>(e) && *final(challenge) == *old(
                challenge,
            ) && final(store)@ == old(store)@,
            None => outcome is Ok && outcome->Ok_0.challenge == *challenge_key
                && outcome->Ok_0.miner == *miner && outcome->Ok_0.nonce == nonce
                && outcome->Ok_0.pow_hash@ == sha256(
                challenge_preimage(old(challenge).seed, nonce, *miner),
            ) && outcome->Ok_0.submitted_at == now && *final(challenge) == accepted(
                *old(challenge),
            ) && final(store)@ == old(store)@.push(outcome->Ok_0),
        },
        outcome is Ok ==> holds(final(store)@, *challenge_key, *miner),
{
    match challenge.status {
        ChallengeStatus::Active => {},
        _ => {
            return Err(ErrorCode::ChallengeNotActive);
        },
    }
    if now > challenge.expires_at {
        return Err(ErrorCode::ChallengeAlreadyExpired);
    }
    let pow_hash: Digest = challenge_digest(&challenge.seed, nonce, miner);
    accept_solution(challenge, challenge_key, store, miner, nonce, pow_hash, now)
}

/// A pair that has its record is refused whatever it submits, and whenever.
pub proof fn lemma_replay_refused(
    challenge: PowChallenge,
    challenge_key: Identity,
    records: Seq<SolutionRecord>,
    miner: Identity,
    pow_hash: Seq<u8>,
    now: i64,
)
    requires
        holds(records, challenge_key, miner),
    ensures
        refusal(challenge, challenge_key, records, miner, pow_hash, now) is Some,
        challenge.open_at(now) && meets(pow_hash, challenge.difficulty_target) ==> refusal(
            challenge,
            challenge_key,
            records,
            miner,
            pow_hash,
            now,
        ) == Some(ErrorCode::DuplicateSubmission),
{
}

/// After an accepted submission the same pair is refused on every further
/// try, with the same nonce or another, and the store still has one record
/// per pair at most.
pub proof fn lemma_second_submission_refused(
    challenge: PowChallenge,
    challenge_key: Identity,
    records: Seq<SolutionRecord>,
    miner: Identity,
    nonce: u64,
    pow_hash: Digest,
    now: i64,
    later_hash: Seq<u8>,
    later: i64,
)
    requires
        distinct_pairs(records),
        refusal(challenge, challenge_key, records, miner, pow_hash@, now) is None,
    ensures
        distinct_pairs(records.push(record_of(challenge_key, miner, nonce, pow_hash, now))),
        refusal(
            accepted(challenge),
            challenge_key,
            records.push(record_of(challenge_key, miner, nonce, pow_hash, now)),
            miner,
            later_hash,
            later,
        ) is Some,
{
    let record = record_of(challenge_key, miner, nonce, pow_hash, now);
    let grown = records.push(record);
    assert(grown[records.len() as int] == record);
    assert(holds(grown, challenge_key, miner));
    assert forall|i: int, j: int| 0 <= i < j < grown.len() implies !((#[trigger] grown[i]).challenge
        == (#[trigger] grown[j]).challenge && grown[i].miner == grown[j].miner) by {
        if j == records.len() {
            assert(grown[i] == records[i]);
        } else {
            assert(grown[i] == records[i]);
            assert(grown[j] == records[j]);
        }
    }
}

/// An active challenge takes a good, first solution up to and including the
/// moment of its expiry, and refuses it as expired from the next moment on.
pub proof fn lemma_expiration_boundary(
    challenge: PowChallenge,
    challenge_key: Identity,
    records: Seq<SolutionRecord>,
    miner: Identity,
    pow_hash: Seq<u8>,
    now: i64,
)
    requires
        challenge.status == ChallengeStatus::Active,
        meets(pow_hash, challenge.difficulty_target),
        !holds(records, challenge_key, miner),
    ensures
        now <= challenge.expires_at ==> refusal(
            challenge,
            challenge_key,
            records,
            miner,
            pow_hash,
            now,
        ) is None,
        now > challenge.expires_at ==> refusal(
            challenge,
            challenge_key,
            records,
            miner,
            pow_hash,
            now,
        ) == Some(ErrorCode::ChallengeAlreadyExpired),
{
}

/// The count of solutions goes up by one with each acceptance until it stands
/// at the largest `u32`, and stays there: it never wraps.
pub proof fn lemma_count_saturates(challenge: PowChallenge)
    ensures
        accepted(challenge).solutions_count >= challenge.solutions_count,
        challenge.solutions_count < u32::MAX ==> accepted(challenge).solutions_count
            == challenge.solutions_count + 1,
        challenge.solutions_count == u32::MAX ==> accepted(challenge) == challenge,
{
}

} // verus!

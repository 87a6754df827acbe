//! The challenge registry: what a challenge is and when one may be created.
//!
//! A challenge is `Active` from its creation and nothing here moves it on:
//! `Expired` and `Completed` are there for whoever keeps the registry to set.
//! That a challenge has run out is read off the clock at each submission, not
//! off the status.

use crate::error::ErrorCode;
use crate::hash::Identity;
use vstd::prelude::*;

verus! {

/// Where a challenge stands in its life.
#[derive(Clone, Copy, Debug, PartialEq, Eq, Structural)]
pub enum ChallengeStatus {
    Active,
    Expired,
    Completed,
}

/// A unit of work posted by an authority.
#[derive(Clone, Copy, Debug, PartialEq, Eq)]
pub struct PowChallenge {
    /// Who created the challenge.
    pub authority: Identity,
    /// The seed published to miners.
    pub seed: [u8; 32],
    /// A digest is accepted when its leading number is strictly below this.
    pub difficulty_target: u128,
    /// The last moment at which a solution is accepted.
    pub expires_at: i64,
    /// Solutions accepted so far; it stops at the largest `u32`.
    pub solutions_count: u32,
    /// Where the challenge stands in its life.
    pub status: ChallengeStatus,
}

/// The challenge that a successful creation returns.
pub open spec fn fresh_challenge(
    authority: Identity,
    seed: [u8; 32],
    difficulty_target: u128,
    expires_at: i64,
) -> PowChallenge {
    PowChallenge {
        authority,
        seed,
        difficulty_target,
        expires_at,
        solutions_count: 0,
        status: ChallengeStatus::Active,
    }
}

impl PowChallenge {
    /// What creation guarantees of a challenge and every accepted solution
    /// keeps: the target is not zero.
    pub open spec fn well_formed(&self) -> bool {
        self.difficulty_target > 0
    }

    /// Whether a solution may still come in at time `now`.
    pub open spec fn open_at(&self, now: i64) -> bool {
        self.status == ChallengeStatus::Active && now <= self.expires_at
    }
}

/// Creates a challenge at time `now`. The expiry is looked at first: it must
/// lie strictly after `now`. Then the target must not be zero.
pub fn create_challenge(
    authority: Identity,
    seed: [u8; 32],
    difficulty_target: u128,
    expires_at: i64,
    now: i64,
) -> (created: Result<PowChallenge, ErrorCode>)
    ensures
        expires_at <= now ==> created == Err::<PowChallenge, ErrorCode>(
            ErrorCode::ChallengeAlreadyExpired,
        ),
        expires_at > now && difficulty_target == 0 ==> created == Err::<PowChallenge, ErrorCode>(
            ErrorCode::InvalidDifficulty,
        ),
        expires_at > now && difficulty_target > 0 ==> created == Ok::<PowChallenge, ErrorCode>(
            fresh_challenge(authority, seed, difficulty_target, expires_at),
        ),
        created is Ok ==> created->Ok_0.well_formed() && created->Ok_0.open_at(now),
{
    if expires_at <= now {
        return Err(ErrorCode::ChallengeAlreadyExpired);
    }
    if difficulty_target == 0 {
        return Err(ErrorCode::InvalidDifficulty);
    }
    Ok(
        PowChallenge {
            authority,
            seed,
            difficulty_target,
            expires_at,
            solutions_count: 0,
            status: ChallengeStatus::Active,
        },
    )
}

} // verus!

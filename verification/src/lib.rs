//! Verifier side of a proof-of-work challenge protocol: the digest rule, the
//! challenge lifecycle, the one-solution-per-miner guard and the retargeting of
//! the global difficulty.
//!
//! Nothing here reads a clock or touches storage: the caller passes the time
//! in and keeps what comes out.

pub mod bytes;
pub mod challenge;
pub mod difficulty;
pub mod error;
pub mod hash;
pub mod hex;
pub mod replay;
pub mod submission;

pub use crate::challenge::{create_challenge, ChallengeStatus, PowChallenge};
pub use crate::difficulty::{init_genesis, initialize_difficulty, update_difficulty, Difficulty};
pub use crate::error::ErrorCode;
pub use crate::hash::{
    chained_pow, challenge_digest, recursive_pow, rehash, same_bytes, Digest, Identity,
    POW_CHAIN_ROUNDS,
};
pub use crate::hex::hex_encode_8;
pub use crate::replay::{AlreadyExists, SolutionRecord, SolutionStore};
pub use crate::submission::{
    accept_solution, meets_target, settle_pow, submit_challenge_solution, submit_pow, verify_pow,
};

//! The ways in which a request is turned down.

use vstd::prelude::*;

verus! {

/// Why a request was refused. Each kind calls for a different reaction of the
/// caller: try another nonce, give the challenge up, or raise an alarm.
#[derive(Clone, Copy, Debug, PartialEq, Eq, Structural)]
pub enum ErrorCode {
    /// The digest does not lie below the target.
    InvalidProofOfWork,
    /// The challenge is not in the `Active` status.
    ChallengeNotActive,
    /// The expiry is not in the future at creation, or is past at submission.
    ChallengeAlreadyExpired,
    /// A challenge was asked for with a target of zero.
    InvalidDifficulty,
    /// The miner already holds a solution record for the challenge.
    DuplicateSubmission,
    /// The mint collaborator failed.
    MintFailure,
}

impl ErrorCode {
    /// The sentence shown to a caller for each kind.
    pub fn message(&self) -> (text: &'static str)
        ensures
            text@ == self.message_text(),
    {
        match self {
            ErrorCode::InvalidProofOfWork => {
                "Invalid proof of work - hash does not meet difficulty target"
            },
            ErrorCode::ChallengeNotActive => "Challenge is not in Active status",
            ErrorCode::ChallengeAlreadyExpired => "Challenge has already expired",
            ErrorCode::InvalidDifficulty => "Difficulty target must be greater than zero",
            ErrorCode::DuplicateSubmission => "A solution is already recorded for this miner",
            ErrorCode::MintFailure => "Mint failed",
        }
    }

    /// The text of `message`, kind by kind.
    pub open spec fn message_text(&self) -> Seq<char> {
        match self {
            ErrorCode::InvalidProofOfWork => {
                "Invalid proof of work - hash does not meet difficulty target"@
            },
            ErrorCode::ChallengeNotActive => "Challenge is not in Active status"@,
            ErrorCode::ChallengeAlreadyExpired => "Challenge has already expired"@,
            ErrorCode::InvalidDifficulty => "Difficulty target must be greater than zero"@,
            ErrorCode::DuplicateSubmission => "A solution is already recorded for this miner"@,
            ErrorCode::MintFailure => "Mint failed"@,
        }
    }
}

} // verus!

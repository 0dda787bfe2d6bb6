//! The error taxonomy of the staking core.

use vstd::prelude::*;

verus! {

/// Why a staking operation was refused. Every failure is terminal for the
/// operation: no record field changes and no funds move.
#[derive(Clone, Copy, Debug, PartialEq, Eq, Structural)]
pub enum ErrorCode {
    /// The asset type of the user's balance does not match the pool's.
    InvalidMint,
    /// The target balance is not owned by the calling user.
    InvalidUserTokenAccount,
    /// Unstake was attempted on an empty epoch bucket.
    InsufficientStakedAmount,
    /// A checked arithmetic step would wrap.
    NumericOverflow,
    /// The epoch bucket is outside {1, 2, 3, 4}.
    InvalidEpoch,
    /// Unstake was attempted before the bucket's lock duration elapsed.
    StakingPeriodNotEnded,
}

impl ErrorCode {
    /// A human-readable description of the error.
    pub fn message(&self) -> &'static str {
        match self {
            ErrorCode::InvalidMint => "The provided mint does not match the expected mint",
            ErrorCode::InvalidUserTokenAccount => {
                "The user token account does not match the expected owner"
            },
            ErrorCode::InsufficientStakedAmount => "Insufficient staked amount",
            ErrorCode::NumericOverflow => "Numeric overflow",
            ErrorCode::InvalidEpoch => "Invalid epoch",
            ErrorCode::StakingPeriodNotEnded => "Staking period has not ended",
        }
    }
}

} // verus!

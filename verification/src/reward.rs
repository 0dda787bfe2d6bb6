//! The reward engine: a pure map from (staked amount, epoch bucket,
//! elapsed seconds) to the reward owed.

use vstd::prelude::*;
use crate::errors::ErrorCode;
use crate::policy::{valid_epoch, spec_annual_rate, annual_rate, REWARD_DIVISOR};

verus! {

/// The wide intermediate product of the reward formula:
/// `amount * annual_rate_percent * elapsed_seconds`, as an unbounded
/// integer.
pub open spec fn spec_reward_numerator(amount: u64, epoch: u8, elapsed: i64) -> int {
    amount * spec_annual_rate(epoch) * elapsed
}

/// The reward owed for `amount` units staked in the given bucket over
/// `elapsed` seconds:
/// `floor(amount * annual_rate_percent * elapsed / (seconds_per_year * 100))`.
pub open spec fn spec_reward(amount: u64, epoch: u8, elapsed: i64) -> int
    recommends
        valid_epoch(epoch),
        elapsed >= 0,
{
    spec_reward_numerator(amount, epoch, elapsed) / (REWARD_DIVISOR as int)
}

/// Whether every arithmetic step of the reward formula is representable:
/// the wide product must fit the 128-bit intermediate type and the final
/// reward must fit 64 bits.
pub open spec fn reward_representable(amount: u64, epoch: u8, elapsed: i64) -> bool {
    &&& spec_reward_numerator(amount, epoch, elapsed) <= u128::MAX
    &&& spec_reward(amount, epoch, elapsed) <= u64::MAX
}

/// Computes the reward owed for `amount` units staked in bucket
/// `epoch_bucket` over `elapsed_seconds` seconds. Deterministic and
/// side-effect free; all intermediate products are taken in 128 bits and
/// checked, never assumed.
pub fn compute_reward(amount: u64, epoch_bucket: u8, elapsed_seconds: i64) -> (result: Result<
    u64,
    ErrorCode,
>)
    requires
        elapsed_seconds >= 0,
    ensures
        result is Ok <==> valid_epoch(epoch_bucket) && reward_representable(
            amount,
            epoch_bucket,
            elapsed_seconds,
        ),
        result is Ok ==> result->Ok_0 == spec_reward(amount, epoch_bucket, elapsed_seconds),
        result is Err ==> result->Err_0 == (if !valid_epoch(epoch_bucket) {
            ErrorCode::InvalidEpoch
        } else {
            ErrorCode::NumericOverflow
        }),
{
    if !(epoch_bucket >= 1 && epoch_bucket <= 4) {
        return Err(ErrorCode::InvalidEpoch);
    }
    let apr: u64 = annual_rate(epoch_bucket);
    assert(amount * apr <= u64::MAX * 60) by (nonlinear_arith)
        requires
            amount <= u64::MAX,
            apr <= 60,
    ;
    let base: u128 = (amount as u128) * (apr as u128);
    let numerator: u128 = match base.checked_mul(elapsed_seconds as u128) {
        Some(n) => n,
        None => { return Err(ErrorCode::NumericOverflow) },
    };
    let quotient: u128 = numerator / (REWARD_DIVISOR as u128);
    if quotient > u64::MAX as u128 {
        return Err(ErrorCode::NumericOverflow);
    }
    Ok(quotient as u64)
}

} // verus!

//! Laws of the staking core that relate several operations, stated over
//! the same spec functions the operations' contracts use and proved once
//! for all inputs.

use vstd::prelude::*;
use crate::errors::ErrorCode;
use crate::policy::{valid_epoch, spec_lock_duration, spec_annual_rate};
use crate::record::GreetingAccount;
use crate::reward::{spec_reward, spec_reward_numerator, reward_representable};
use crate::machine::{
    AssetId, spec_staked, spec_stake_start, stake_fits, stake_transition, stake_error,
    unstake_allowed, unstake_transition, unstake_error,
};

verus! {

/// Staking into a valid bucket and reading it straight back gives the
/// bucket's previous amount plus the staked amount — on a fresh bucket,
/// exactly the staked amount. `get_staked_amount` returns
/// `spec_staked` for a valid bucket, so this is what the query reports.
pub proof fn lemma_stake_then_get(
    pre: GreetingAccount,
    post: GreetingAccount,
    amount: u64,
    epoch: u8,
    now: i64,
)
    requires
        valid_epoch(epoch),
        stake_fits(pre, amount, epoch),
        stake_transition(pre, post, amount, epoch, now),
    ensures
        spec_staked(post, epoch) == spec_staked(pre, epoch) + amount,
        spec_staked(pre, epoch) == 0 ==> spec_staked(post, epoch) == amount,
{
}

/// Two sequential stakes into the same (initially empty) bucket
/// accumulate: the bucket then holds `amount1 + amount2`, and its reward
/// clock is the time of the second stake — the whole accumulated amount
/// accrues from that moment.
pub proof fn lemma_sequential_stakes_accumulate(
    r0: GreetingAccount,
    r1: GreetingAccount,
    r2: GreetingAccount,
    amount1: u64,
    amount2: u64,
    epoch: u8,
    t1: i64,
    t2: i64,
)
    requires
        valid_epoch(epoch),
        spec_staked(r0, epoch) == 0,
        amount1 + amount2 <= u64::MAX,
        stake_transition(r0, r1, amount1, epoch, t1),
        stake_transition(r1, r2, amount2, epoch, t2),
    ensures
        spec_staked(r2, epoch) == amount1 + amount2,
        spec_stake_start(r2, epoch) == t2,
{
}

/// Unstaking a non-empty valid bucket before its lock duration has
/// elapsed is never allowed, and the error reported is
/// `StakingPeriodNotEnded`; by the contract of `unstake_tokens` the
/// record is then left unchanged.
pub proof fn lemma_early_unstake_refused(r: GreetingAccount, epoch: u8, now: i64)
    requires
        valid_epoch(epoch),
        spec_staked(r, epoch) > 0,
        now - spec_stake_start(r, epoch) < spec_lock_duration(epoch),
    ensures
        !unstake_allowed(r, epoch, now),
        unstake_error(r, epoch, now) == ErrorCode::StakingPeriodNotEnded,
{
}

/// An unstake at or after the bucket's lock duration is owed success
/// whenever its reward arithmetic is representable and the payout fits
/// 64 bits; by the contract of `unstake_tokens` the reward returned is
/// then exactly
/// `floor(amount * annual_rate_percent * elapsed / (seconds_per_year * 100))`.
pub proof fn lemma_mature_unstake_allowed(r: GreetingAccount, epoch: u8, now: i64)
    requires
        valid_epoch(epoch),
        spec_staked(r, epoch) > 0,
        now - spec_stake_start(r, epoch) >= spec_lock_duration(epoch),
        reward_representable(
            spec_staked(r, epoch),
            epoch,
            (now - spec_stake_start(r, epoch)) as i64,
        ),
        spec_staked(r, epoch) + spec_reward(
            spec_staked(r, epoch),
            epoch,
            (now - spec_stake_start(r, epoch)) as i64,
        ) <= u64::MAX,
    ensures
        unstake_allowed(r, epoch, now),
{
}

/// Round trip: staking `amount` into an empty bucket and unstaking once
/// the bucket's lock duration has passed is allowed, returns the full
/// principal, and leaves the bucket empty with its start time cleared.
/// The one side condition is that the payout `amount + reward` must fit
/// 64 bits; an `amount` within any realistic token supply satisfies it.
pub proof fn lemma_stake_unstake_round_trip(
    r0: GreetingAccount,
    r1: GreetingAccount,
    r2: GreetingAccount,
    amount: u64,
    epoch: u8,
    t0: i64,
    t1: i64,
)
    requires
        valid_epoch(epoch),
        amount > 0,
        spec_staked(r0, epoch) == 0,
        0 <= t0,
        t1 == t0 + spec_lock_duration(epoch),
        amount + spec_reward(amount, epoch, spec_lock_duration(epoch)) <= u64::MAX,
        stake_transition(r0, r1, amount, epoch, t0),
        unstake_transition(r1, r2, epoch),
    ensures
        spec_staked(r1, epoch) == amount,
        unstake_allowed(r1, epoch, t1),
        spec_staked(r2, epoch) == 0,
        spec_stake_start(r2, epoch) == 0,
{
    let rate = spec_annual_rate(epoch);
    let dur = spec_lock_duration(epoch);
    assert(amount * rate * dur <= u64::MAX * 60 * 240) by (nonlinear_arith)
        requires
            amount <= u64::MAX,
            0 <= rate <= 60,
            0 <= dur <= 240,
    ;
    assert(spec_reward_numerator(amount, epoch, dur) <= u128::MAX);
}

/// Stake and unstake touch only their own bucket: every other bucket's
/// amount and reward clock come through unchanged, so operations on
/// different buckets of one record do not interfere.
pub proof fn lemma_buckets_independent(
    pre: GreetingAccount,
    post: GreetingAccount,
    amount: u64,
    epoch: u8,
    other: u8,
    now: i64,
)
    requires
        valid_epoch(epoch),
        valid_epoch(other),
        other != epoch,
        stake_transition(pre, post, amount, epoch, now) || unstake_transition(pre, post, epoch),
    ensures
        spec_staked(post, other) == spec_staked(pre, other),
        spec_stake_start(post, other) == spec_stake_start(pre, other),
{
}

/// An epoch bucket outside {1, 2, 3, 4} — 0 or 5, say — is refused with
/// `InvalidEpoch` by every operation: stake, unstake, and the query
/// (whose contract returns `InvalidEpoch` directly on an invalid bucket).
pub proof fn lemma_invalid_epoch_rejected(
    r: GreetingAccount,
    amount: u64,
    epoch: u8,
    user_token_mint: AssetId,
    staking_wallet_mint: AssetId,
    now: i64,
)
    requires
        !valid_epoch(epoch),
    ensures
        !(valid_epoch(epoch) && user_token_mint == staking_wallet_mint && stake_fits(
            r,
            amount,
            epoch,
        )),
        stake_error(r, amount, epoch, user_token_mint, staking_wallet_mint)
            == ErrorCode::InvalidEpoch,
        !unstake_allowed(r, epoch, now),
        unstake_error(r, epoch, now) == ErrorCode::InvalidEpoch,
{
}

} // verus!

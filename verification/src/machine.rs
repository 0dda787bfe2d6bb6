//! The staking state machine: stake, unstake and the read-only query,
//! operating on one user's record.
//!
//! Each bucket of a record is either `Empty` (amount slot 0) or `Staked`
//! (amount slot positive). `stake_tokens` moves a bucket towards `Staked`
//! and `unstake_tokens` back to `Empty`. The asset transfer that
//! accompanies each transition is performed by the surrounding program,
//! which commits the mutated record only when the transfer went through,
//! so a failed transfer leaves the stored record unchanged.

use vstd::prelude::*;
use crate::errors::ErrorCode;
use crate::policy::{valid_epoch, spec_lock_duration, lock_duration};
use crate::record::GreetingAccount;
use crate::reward::{spec_reward, reward_representable, compute_reward};

verus! {

/// An asset type, as an abstract identifier. Two balances can exchange
/// units only when their asset identifiers are equal.
pub type AssetId = u64;

/// The amount currently staked in the given bucket of a record.
pub open spec fn spec_staked(r: GreetingAccount, epoch: u8) -> u64
    recommends
        valid_epoch(epoch),
{
    r.staked_amount@[epoch - 1]
}

/// The time at which the current stake in the given bucket began.
pub open spec fn spec_stake_start(r: GreetingAccount, epoch: u8) -> i64
    recommends
        valid_epoch(epoch),
{
    r.last_stake_time@[epoch - 1]
}

/// Whether topping the given bucket up by `amount` stays within 64 bits.
pub open spec fn stake_fits(r: GreetingAccount, amount: u64, epoch: u8) -> bool
    recommends
        valid_epoch(epoch),
{
    spec_staked(r, epoch) + amount <= u64::MAX
}

/// What a successful stake does to a record: the bucket's amount grows by
/// `amount`, its start time is re-stamped to `now` (resetting the reward
/// clock for the whole accumulated amount), and everything else is kept.
pub open spec fn stake_transition(
    pre: GreetingAccount,
    post: GreetingAccount,
    amount: u64,
    epoch: u8,
    now: i64,
) -> bool
    recommends
        valid_epoch(epoch),
        stake_fits(pre, amount, epoch),
{
    &&& post.name == pre.name
    &&& post.first_greeting_time == pre.first_greeting_time
    &&& post.staked_amount@ == pre.staked_amount@.update(
        epoch - 1,
        (spec_staked(pre, epoch) + amount) as u64,
    )
    &&& post.last_stake_time@ == pre.last_stake_time@.update(epoch - 1, now)
}

/// The error a refused stake reports, by the first failing check.
pub open spec fn stake_error(
    pre: GreetingAccount,
    amount: u64,
    epoch: u8,
    user_token_mint: AssetId,
    staking_wallet_mint: AssetId,
) -> ErrorCode {
    if !valid_epoch(epoch) {
        ErrorCode::InvalidEpoch
    } else if user_token_mint != staking_wallet_mint {
        ErrorCode::InvalidMint
    } else {
        ErrorCode::NumericOverflow
    }
}

/// Stakes `amount` units into the given epoch bucket of `gm_account` at
/// time `now`, provided the user's balance and the custodial pool hold the
/// same asset. Succeeds exactly when the bucket is valid, the asset types
/// match and the bucket's new total fits 64 bits; any failure leaves the
/// record untouched.
pub fn stake_tokens(
    gm_account: &mut GreetingAccount,
    amount: u64,
    epoch: u8,
    user_token_mint: AssetId,
    staking_wallet_mint: AssetId,
    now: i64,
) -> (result: Result<(), ErrorCode>)
    requires
        old(gm_account).wf(),
        now >= 0,
    ensures
        final(gm_account).wf(),
        result is Ok <==> valid_epoch(epoch) && user_token_mint == staking_wallet_mint
            && stake_fits(*old(gm_account), amount, epoch),
        result is Ok ==> stake_transition(*old(gm_account), *final(gm_account), amount, epoch, now),
        result is Err ==> *final(gm_account) == *old(gm_account),
        result is Err ==> result->Err_0 == stake_error(
            *old(gm_account),
            amount,
            epoch,
            user_token_mint,
            staking_wallet_mint,
        ),
{
    if !(epoch >= 1 && epoch <= 4) {
        return Err(ErrorCode::InvalidEpoch);
    }
    if user_token_mint != staking_wallet_mint {
        return Err(ErrorCode::InvalidMint);
    }
    let epoch_index: usize = (epoch - 1) as usize;
    let current: u64 = gm_account.staked_amount[epoch_index];
    let topped: u64 = match current.checked_add(amount) {
        Some(t) => t,
        None => { return Err(ErrorCode::NumericOverflow) },
    };
    gm_account.staked_amount[epoch_index] = topped;
    gm_account.last_stake_time[epoch_index] = now;
    Ok(())
}

/// Whether an unstake from the given bucket at time `now` is owed success:
/// the bucket is valid and holds a stake, its lock duration has elapsed,
/// and neither the reward nor the payout overflows.
pub open spec fn unstake_allowed(pre: GreetingAccount, epoch: u8, now: i64) -> bool {
    &&& valid_epoch(epoch)
    &&& spec_staked(pre, epoch) > 0
    &&& now - spec_stake_start(pre, epoch) >= spec_lock_duration(epoch)
    &&& reward_representable(
        spec_staked(pre, epoch),
        epoch,
        (now - spec_stake_start(pre, epoch)) as i64,
    )
    &&& spec_staked(pre, epoch) + spec_reward(
        spec_staked(pre, epoch),
        epoch,
        (now - spec_stake_start(pre, epoch)) as i64,
    ) <= u64::MAX
}

/// What a successful unstake does to a record: the bucket is emptied and
/// its start time cleared; everything else is kept.
pub open spec fn unstake_transition(pre: GreetingAccount, post: GreetingAccount, epoch: u8) -> bool
    recommends
        valid_epoch(epoch),
{
    &&& post.name == pre.name
    &&& post.first_greeting_time == pre.first_greeting_time
    &&& post.staked_amount@ == pre.staked_amount@.update(epoch - 1, 0u64)
    &&& post.last_stake_time@ == pre.last_stake_time@.update(epoch - 1, 0i64)
}

/// The error a refused unstake reports, by the first failing check.
pub open spec fn unstake_error(pre: GreetingAccount, epoch: u8, now: i64) -> ErrorCode {
    if !valid_epoch(epoch) {
        ErrorCode::InvalidEpoch
    } else if spec_staked(pre, epoch) == 0 {
        ErrorCode::InsufficientStakedAmount
    } else if now - spec_stake_start(pre, epoch) < spec_lock_duration(epoch) {
        ErrorCode::StakingPeriodNotEnded
    } else {
        ErrorCode::NumericOverflow
    }
}

/// Unstakes the whole stake of the given epoch bucket at time `now`,
/// returning the pair (principal, reward). Succeeds exactly when the
/// bucket is valid and non-empty, its lock duration has elapsed, and the
/// reward arithmetic is representable; any failure leaves the record
/// untouched. The reward is
/// `floor(principal * annual_rate_percent * elapsed / (seconds_per_year * 100))`.
pub fn unstake_tokens(gm_account: &mut GreetingAccount, epoch: u8, now: i64) -> (result: Result<
    (u64, u64),
    ErrorCode,
>)
    requires
        old(gm_account).wf(),
        now >= 0,
    ensures
        final(gm_account).wf(),
        result is Ok <==> unstake_allowed(*old(gm_account), epoch, now),
        result is Ok ==> {
            let principal = spec_staked(*old(gm_account), epoch);
            let elapsed = now - spec_stake_start(*old(gm_account), epoch);
            &&& result->Ok_0.0 == principal
            &&& result->Ok_0.1 == spec_reward(principal, epoch, elapsed as i64)
            &&& unstake_transition(*old(gm_account), *final(gm_account), epoch)
        },
        result is Err ==> *final(gm_account) == *old(gm_account),
        result is Err ==> result->Err_0 == unstake_error(*old(gm_account), epoch, now),
{
    if !(epoch >= 1 && epoch <= 4) {
        return Err(ErrorCode::InvalidEpoch);
    }
    let epoch_index: usize = (epoch - 1) as usize;
    let amount: u64 = gm_account.staked_amount[epoch_index];
    if amount == 0 {
        return Err(ErrorCode::InsufficientStakedAmount);
    }
    let stake_time: i64 = gm_account.last_stake_time[epoch_index];
    let time_staked: i64 = now - stake_time;
    if time_staked < lock_duration(epoch) {
        return Err(ErrorCode::StakingPeriodNotEnded);
    }
    let reward: u64 = match compute_reward(amount, epoch, time_staked) {
        Ok(r) => r,
        Err(e) => { return Err(e) },
    };
    if amount.checked_add(reward).is_none() {
        return Err(ErrorCode::NumericOverflow);
    }
    gm_account.staked_amount[epoch_index] = 0;
    gm_account.last_stake_time[epoch_index] = 0;
    Ok((amount, reward))
}

/// Reads the amount currently staked in the given epoch bucket.
pub fn get_staked_amount(gm_account: &GreetingAccount, epoch: u8) -> (result: Result<
    u64,
    ErrorCode,
>)
    ensures
        valid_epoch(epoch) ==> result == Ok::<u64, ErrorCode>(spec_staked(*gm_account, epoch)),
        !valid_epoch(epoch) ==> result == Err::<u64, ErrorCode>(ErrorCode::InvalidEpoch),
{
    if !(epoch >= 1 && epoch <= 4) {
        return Err(ErrorCode::InvalidEpoch);
    }
    let epoch_index: usize = (epoch - 1) as usize;
    Ok(gm_account.staked_amount[epoch_index])
}

} // verus!

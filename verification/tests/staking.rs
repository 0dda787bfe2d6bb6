use gm_staking::errors::ErrorCode;
use gm_staking::machine::{get_staked_amount, stake_tokens, unstake_tokens};
use gm_staking::policy::{annual_rate, lock_duration};
use gm_staking::record::initialize_gm_account;
use gm_staking::reward::compute_reward;

const MINT: u64 = 42;
const OTHER_MINT: u64 = 43;

#[test]
fn fresh_record_is_empty() {
    let r = initialize_gm_account();
    assert_eq!(r.name, "");
    assert_eq!(r.first_greeting_time, 0);
    assert_eq!(r.staked_amount, [0, 0, 0, 0]);
    assert_eq!(r.last_stake_time, [0, 0, 0, 0]);
    for epoch in 1u8..=4 {
        assert_eq!(get_staked_amount(&r, epoch), Ok(0));
    }
}

#[test]
fn policy_table_is_fixed() {
    assert_eq!(lock_duration(1), 60);
    assert_eq!(lock_duration(2), 120);
    assert_eq!(lock_duration(3), 180);
    assert_eq!(lock_duration(4), 240);
    assert_eq!(annual_rate(1), 30);
    assert_eq!(annual_rate(2), 40);
    assert_eq!(annual_rate(3), 50);
    assert_eq!(annual_rate(4), 60);
}

#[test]
fn stake_then_get_returns_amount_in_every_bucket() {
    for epoch in 1u8..=4 {
        let mut r = initialize_gm_account();
        assert_eq!(stake_tokens(&mut r, 12_345, epoch, MINT, MINT, 100), Ok(()));
        assert_eq!(get_staked_amount(&r, epoch), Ok(12_345));
        for other in 1u8..=4 {
            if other != epoch {
                assert_eq!(get_staked_amount(&r, other), Ok(0));
            }
        }
    }
}

#[test]
fn sequential_stakes_accumulate_and_reset_clock() {
    let mut r = initialize_gm_account();
    assert_eq!(stake_tokens(&mut r, 700, 2, MINT, MINT, 50), Ok(()));
    assert_eq!(stake_tokens(&mut r, 300, 2, MINT, MINT, 90), Ok(()));
    assert_eq!(get_staked_amount(&r, 2), Ok(1_000));
    assert_eq!(r.last_stake_time[1], 90);
}

#[test]
fn zero_amount_stake_accumulates_nothing_but_resets_clock() {
    let mut r = initialize_gm_account();
    assert_eq!(stake_tokens(&mut r, 800, 3, MINT, MINT, 10), Ok(()));
    assert_eq!(stake_tokens(&mut r, 0, 3, MINT, MINT, 25), Ok(()));
    assert_eq!(get_staked_amount(&r, 3), Ok(800));
    assert_eq!(r.last_stake_time[2], 25);
}

#[test]
fn top_up_resets_reward_clock_for_whole_bucket() {
    let mut r = initialize_gm_account();
    assert_eq!(stake_tokens(&mut r, 1_000, 1, MINT, MINT, 0), Ok(()));
    assert_eq!(stake_tokens(&mut r, 1_000, 1, MINT, MINT, 30), Ok(()));
    // 89 seconds after the first stake, but only 59 after the top-up.
    assert_eq!(
        unstake_tokens(&mut r, 1, 89),
        Err(ErrorCode::StakingPeriodNotEnded)
    );
    assert_eq!(unstake_tokens(&mut r, 1, 90), Ok((2_000, 0)));
}

#[test]
fn early_unstake_fails_and_leaves_record_unchanged() {
    let mut r = initialize_gm_account();
    assert_eq!(stake_tokens(&mut r, 5_000, 4, MINT, MINT, 1_000), Ok(()));
    let before_amount = r.staked_amount;
    let before_time = r.last_stake_time;
    assert_eq!(
        unstake_tokens(&mut r, 4, 1_000 + 239),
        Err(ErrorCode::StakingPeriodNotEnded)
    );
    assert_eq!(r.staked_amount, before_amount);
    assert_eq!(r.last_stake_time, before_time);
}

#[test]
fn unstake_at_exact_lock_boundary_succeeds() {
    let mut r = initialize_gm_account();
    assert_eq!(stake_tokens(&mut r, 1_000_000, 3, MINT, MINT, 0), Ok(()));
    // floor(1_000_000 * 50 * 180 / 3_153_600_000) == 2
    assert_eq!(unstake_tokens(&mut r, 3, 180), Ok((1_000_000, 2)));
    assert_eq!(r.staked_amount[2], 0);
    assert_eq!(r.last_stake_time[2], 0);
}

#[test]
fn round_trip_returns_principal_and_empties_bucket() {
    let mut r = initialize_gm_account();
    assert_eq!(stake_tokens(&mut r, 5_000, 2, MINT, MINT, 1_000), Ok(()));
    let wait = lock_duration(2);
    let (principal, reward) = unstake_tokens(&mut r, 2, 1_000 + wait).unwrap();
    assert_eq!(principal, 5_000);
    assert_eq!(reward, 0);
    assert_eq!(get_staked_amount(&r, 2), Ok(0));
    assert_eq!(r.staked_amount[1], 0);
    assert_eq!(r.last_stake_time[1], 0);
}

#[test]
fn invalid_epoch_fails_every_operation() {
    for epoch in [0u8, 5u8] {
        let mut r = initialize_gm_account();
        assert_eq!(
            stake_tokens(&mut r, 100, epoch, MINT, MINT, 0),
            Err(ErrorCode::InvalidEpoch)
        );
        assert_eq!(
            unstake_tokens(&mut r, epoch, 1_000),
            Err(ErrorCode::InvalidEpoch)
        );
        assert_eq!(get_staked_amount(&r, epoch), Err(ErrorCode::InvalidEpoch));
        assert_eq!(compute_reward(100, epoch, 60), Err(ErrorCode::InvalidEpoch));
        assert_eq!(r.staked_amount, [0, 0, 0, 0]);
        assert_eq!(r.last_stake_time, [0, 0, 0, 0]);
    }
}

#[test]
fn bucket_one_small_stake_rounds_reward_down_to_zero() {
    let mut r = initialize_gm_account();
    assert_eq!(stake_tokens(&mut r, 1_000, 1, MINT, MINT, 0), Ok(()));
    // floor(1_000 * 30 * 60 / 3_153_600_000) == 0: at this scale the
    // reward rounds down to nothing, which is the intended arithmetic.
    assert_eq!(unstake_tokens(&mut r, 1, 60), Ok((1_000, 0)));
}

#[test]
fn bucket_four_large_stake_exact_reward() {
    let mut r = initialize_gm_account();
    assert_eq!(stake_tokens(&mut r, 100_000_000, 4, MINT, MINT, 0), Ok(()));
    // floor(100_000_000 * 60 * 240 / 3_153_600_000) == 456
    assert_eq!(unstake_tokens(&mut r, 4, 240), Ok((100_000_000, 456)));
}

#[test]
fn mint_mismatch_fails_stake_and_leaves_record_unchanged() {
    let mut r = initialize_gm_account();
    assert_eq!(
        stake_tokens(&mut r, 100, 1, MINT, OTHER_MINT, 0),
        Err(ErrorCode::InvalidMint)
    );
    assert_eq!(r.staked_amount, [0, 0, 0, 0]);
    assert_eq!(r.last_stake_time, [0, 0, 0, 0]);
}

#[test]
fn unstake_empty_bucket_fails() {
    let mut r = initialize_gm_account();
    assert_eq!(
        unstake_tokens(&mut r, 1, 1_000_000),
        Err(ErrorCode::InsufficientStakedAmount)
    );
}

#[test]
fn stake_overflow_is_rejected_and_leaves_record_unchanged() {
    let mut r = initialize_gm_account();
    assert_eq!(stake_tokens(&mut r, u64::MAX, 1, MINT, MINT, 10), Ok(()));
    assert_eq!(
        stake_tokens(&mut r, 1, 1, MINT, MINT, 20),
        Err(ErrorCode::NumericOverflow)
    );
    assert_eq!(get_staked_amount(&r, 1), Ok(u64::MAX));
    assert_eq!(r.last_stake_time[0], 10);
}

#[test]
fn payout_overflow_is_rejected_and_leaves_record_unchanged() {
    let mut r = initialize_gm_account();
    assert_eq!(stake_tokens(&mut r, u64::MAX, 4, MINT, MINT, 0), Ok(()));
    // The reward is positive here, so principal + reward would wrap.
    assert_eq!(
        unstake_tokens(&mut r, 4, 240),
        Err(ErrorCode::NumericOverflow)
    );
    assert_eq!(get_staked_amount(&r, 4), Ok(u64::MAX));
    assert_eq!(r.last_stake_time[3], 0);
}

#[test]
fn reward_wide_product_overflow_is_rejected() {
    // u64::MAX * 60 * i64::MAX does not fit even in 128 bits.
    assert_eq!(
        compute_reward(u64::MAX, 4, i64::MAX),
        Err(ErrorCode::NumericOverflow)
    );
}

#[test]
fn reward_beyond_64_bits_is_rejected() {
    // The wide product fits 128 bits, but the reward itself exceeds u64.
    assert_eq!(
        compute_reward(u64::MAX, 4, 60_000_000_000),
        Err(ErrorCode::NumericOverflow)
    );
}

#[test]
fn reward_zero_elapsed_is_zero() {
    assert_eq!(compute_reward(1_000_000, 2, 0), Ok(0));
}

#[test]
fn reward_one_full_year_is_the_annual_rate() {
    // A full year at 30% on 1_000_000 units: floor(1_000_000 * 30 * 31_536_000
    // / 3_153_600_000) == 300_000.
    assert_eq!(compute_reward(1_000_000, 1, 31_536_000), Ok(300_000));
}

#[test]
fn error_messages_name_each_condition() {
    assert_eq!(
        ErrorCode::InvalidMint.message(),
        "The provided mint does not match the expected mint"
    );
    assert_eq!(
        ErrorCode::InvalidUserTokenAccount.message(),
        "The user token account does not match the expected owner"
    );
    assert_eq!(
        ErrorCode::InsufficientStakedAmount.message(),
        "Insufficient staked amount"
    );
    assert_eq!(ErrorCode::NumericOverflow.message(), "Numeric overflow");
    assert_eq!(ErrorCode::InvalidEpoch.message(), "Invalid epoch");
    assert_eq!(
        ErrorCode::StakingPeriodNotEnded.message(),
        "Staking period has not ended"
    );
}

#[test]
fn buckets_are_independent() {
    let mut r = initialize_gm_account();
    assert_eq!(stake_tokens(&mut r, 10, 1, MINT, MINT, 0), Ok(()));
    assert_eq!(stake_tokens(&mut r, 20, 2, MINT, MINT, 1), Ok(()));
    assert_eq!(stake_tokens(&mut r, 30, 3, MINT, MINT, 2), Ok(()));
    assert_eq!(stake_tokens(&mut r, 40, 4, MINT, MINT, 3), Ok(()));
    assert_eq!(unstake_tokens(&mut r, 1, 62), Ok((10, 0)));
    assert_eq!(get_staked_amount(&r, 1), Ok(0));
    assert_eq!(get_staked_amount(&r, 2), Ok(20));
    assert_eq!(get_staked_amount(&r, 3), Ok(30));
    assert_eq!(get_staked_amount(&r, 4), Ok(40));
    assert_eq!(r.last_stake_time[1], 1);
    assert_eq!(r.last_stake_time[2], 2);
    assert_eq!(r.last_stake_time[3], 3);
}

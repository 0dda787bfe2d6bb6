//! The fixed epoch policy table: lock durations and annual yield rates.

use vstd::prelude::*;

verus! {

/// Seconds in one (non-leap) year, the time base of the annual rates.
pub const SECONDS_PER_YEAR: u64 = 365 * 24 * 60 * 60;

/// The divisor of the reward formula: `SECONDS_PER_YEAR` scaled by 100
/// because the annual rates are expressed in percent.
pub const REWARD_DIVISOR: u64 = 365 * 24 * 60 * 60 * 100;

/// An epoch bucket is one of the four fixed staking tiers.
pub open spec fn valid_epoch(epoch: u8) -> bool {
    1 <= epoch <= 4
}

/// How long a stake in the given bucket is locked, in seconds.
pub open spec fn spec_lock_duration(epoch: u8) -> i64
    recommends
        valid_epoch(epoch),
{
    if epoch == 1 {
        60
    } else if epoch == 2 {
        120
    } else if epoch == 3 {
        180
    } else {
        240
    }
}

/// The annual yield of the given bucket, in percent.
pub open spec fn spec_annual_rate(epoch: u8) -> u64
    recommends
        valid_epoch(epoch),
{
    if epoch == 1 {
        30
    } else if epoch == 2 {
        40
    } else if epoch == 3 {
        50
    } else {
        60
    }
}

/// Looks up the lock duration of a valid epoch bucket.
pub fn lock_duration(epoch: u8) -> (d: i64)
    requires
        valid_epoch(epoch),
    ensures
        d == spec_lock_duration(epoch),
{
    if epoch == 1 {
        60
    } else if epoch == 2 {
        120
    } else if epoch == 3 {
        180
    } else {
        240
    }
}

/// Looks up the annual rate of a valid epoch bucket, in percent.
pub fn annual_rate(epoch: u8) -> (r: u64)
    requires
        valid_epoch(epoch),
    ensures
        r == spec_annual_rate(epoch),
{
    if epoch == 1 {
        30
    } else if epoch == 2 {
        40
    } else if epoch == 3 {
        50
    } else {
        60
    }
}

} // verus!

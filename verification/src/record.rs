//! The per-user staking record.

use vstd::prelude::*;

verus! {

/// One user's record: a display name, the timestamp of the user's first
/// interaction, and, per epoch bucket, the staked amount and the time the
/// current stake in that bucket began. The arrays are indexed by
/// `epoch - 1` for `epoch` in {1, 2, 3, 4}.
#[derive(Clone)]
pub struct GreetingAccount {
    /// A mutable label; unrelated to the staking logic.
    pub name: String,
    /// Informational timestamp of the user's first interaction.
    pub first_greeting_time: i64,
    /// Units staked per epoch bucket; 0 when no active stake exists there.
    pub staked_amount: [u64; 4],
    /// Unix seconds at which the stake in each bucket began.
    pub last_stake_time: [i64; 4],
}

impl GreetingAccount {
    /// Every stake-start slot holds a plausible Unix timestamp: never
    /// negative. The clock source hands out non-negative Unix seconds, so
    /// every slot ever written stays in this range; it keeps the elapsed
    /// time `now - start` representable in the `i64` the reward engine
    /// takes.
    pub open spec fn wf(self) -> bool {
        forall|i: int| 0 <= i < 4 ==> #[trigger] self.last_stake_time@[i] >= 0
    }
}

/// Creates a fresh record: empty name, no interaction time, all four
/// buckets empty. Whether a record may be created at all (at most once per
/// user) is the account store's rule, enforced by the surrounding program.
pub fn initialize_gm_account() -> (r: GreetingAccount)
    ensures
        r.name@ == Seq::<char>::empty(),
        r.first_greeting_time == 0,
        forall|i: int| 0 <= i < 4 ==> #[trigger] r.staked_amount@[i] == 0,
        forall|i: int| 0 <= i < 4 ==> #[trigger] r.last_stake_time@[i] == 0,
        r.wf(),
{
    GreetingAccount {
        name: String::new(),
        first_greeting_time: 0,
        staked_amount: [0u64, 0u64, 0u64, 0u64],
        last_stake_time: [0i64, 0i64, 0i64, 0i64],
    }
}

} // verus!

//! Account records of the pool program.

use vstd::prelude::*;

verus! {

/// A staking pool.
#[derive(Clone, Copy, Debug, PartialEq, Eq, Structural)]
pub struct PoolInfo {
    /// Total lock period, in seconds.
    pub duration: u64,
    /// Yearly yield, in percent.
    pub apy: u8,
    /// Unix time of the last reward distribution.
    pub last_reward_time: u64,
    /// Reward accumulated per staked token, scaled by `10^18`.
    pub acc_token_per_share: u64,
    /// Tokens staked in the pool.
    pub total_supply: u64,
}

/// A user's position in a pool.
#[derive(Clone, Copy, Debug, PartialEq, Eq, Structural)]
pub struct UserInfo {
    pub amount: u64,
    /// Reward per token already accounted for.
    pub reward_debt: u64,
    /// Rewards locked up for the user.
    pub reward_lockedup: u64,
    /// Unix time of the stake.
    pub timestamp: u64,
}

/// Totals over all users.
#[derive(Clone, Copy, Debug, PartialEq, Eq, Structural)]
pub struct Total {
    pub total_lockedup_rewards: u64,
    pub total_claimed_rewards: u64,
}

} // verus!

//! Staking records: a pool and one user's stake in it.

use vstd::prelude::*;

use crate::address::Address;

verus! {

/// A staking pool for one asset, paying rewards in another.
#[derive(Clone, Copy, Debug)]
pub struct StakingPool {
    pub authority: Address,
    /// The asset that is staked.
    pub token_mint: Address,
    /// The asset that rewards are paid in.
    pub reward_mint: Address,
    /// Reward units per second.
    pub reward_rate: u64,
    /// Units staked in the pool over all users.
    pub total_staked: u64,
    pub bump: u8,
}

impl StakingPool {
    /// Bytes reserved for the persisted record, discriminator included.
    pub const LEN: usize = 8 + 32 + 32 + 32 + 8 + 8 + 1;
}

/// One user's stake in a pool.
#[derive(Clone, Copy, Debug)]
pub struct UserStake {
    pub owner: Address,
    pub staking_pool: Address,
    pub staked_amount: u64,
    /// When the stake began, in seconds.
    pub stake_start_time: i64,
    /// When rewards were last claimed, in seconds.
    pub last_claim_time: i64,
    /// Rewards claimed so far.
    pub total_claimed: u64,
    pub bump: u8,
}

impl UserStake {
    /// Bytes reserved for the persisted record, discriminator included.
    pub const LEN: usize = 8 + 32 + 32 + 8 + 8 + 8 + 8 + 1;

    /// A user's stake is part of its pool's total.
    pub open spec fn within_pool(&self, pool: StakingPool) -> bool {
        self.staked_amount <= pool.total_staked
    }
}

} // verus!

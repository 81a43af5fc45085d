//! The persisted ledger records: the shared pool and the per-participant
//! stake account.
//!
//! Identities (participants, admins) and asset kinds are carried as plain
//! integer identifiers: the surrounding host maps them to whatever addressing
//! scheme its account directory uses.

use vstd::prelude::*;

verus! {

/// The shared, singleton-per-market ledger record: one pool per
/// stake-asset/reward-asset pair.
#[derive(Clone, Copy, Debug, PartialEq, Eq, Structural)]
pub struct Pool {
    /// Identity authorized to fund rewards. Immutable after creation.
    pub admin: u64,
    /// Identifier of the asset participants stake. Immutable.
    pub stake_asset_id: u64,
    /// Identifier of the asset rewards are paid in. Immutable.
    pub reward_asset_id: u64,
    /// Reward units minted per second, scaled per unit of total stake by the
    /// accrual formula. Mutable only by an admin configuration action outside
    /// the four core operations.
    pub reward_rate_per_second: u128,
    /// Sum of all participants' `amount_staked`; updated together with each
    /// participant record in the same atomic step.
    pub total_staked: u128,
}

/// The per-participant ledger record: one per (pool, participant).
#[derive(Clone, Copy, Debug, PartialEq, Eq, Structural)]
pub struct UserStakeAccount {
    /// Identity of the participant; set on first stake, immutable after.
    pub owner: u64,
    /// This participant's current stake, at most the pool's `total_staked`.
    pub amount_staked: u128,
    /// Rewards accrued but not yet claimed. Non-decreasing except for the
    /// reset to zero on claim and on full exit.
    pub pending_rewards: u128,
    /// Timestamp of the most recent accrual settlement for this participant.
    pub last_update_timestamp: i64,
}

impl UserStakeAccount {
    /// A fresh record for a participant staking for the first time: nothing
    /// staked, nothing pending, settled as of `now`.
    pub fn new(owner: u64, now: i64) -> (r: UserStakeAccount)
        ensures
            r == (UserStakeAccount {
                owner,
                amount_staked: 0,
                pending_rewards: 0,
                last_update_timestamp: now,
            }),
    {
        UserStakeAccount { owner, amount_staked: 0, pending_rewards: 0, last_update_timestamp: now }
    }
}

} // verus!

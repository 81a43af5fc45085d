//! Pool creation: populating the fields the core later reads.
//!
//! Vault creation, rent and addressing are the host's ceremony; the core's
//! part is only the initial ledger record.

use vstd::prelude::*;

use crate::state::Pool;

verus! {

/// The configuration of a new pool.
#[derive(Clone, Copy, Debug, PartialEq, Eq, Structural)]
pub struct InitializePool {
    /// The identity that will administer the pool.
    pub admin: u64,
    /// The asset participants will stake.
    pub stake_asset_id: u64,
    /// The asset rewards are paid in.
    pub reward_asset_id: u64,
    /// Reward units minted per second, as consumed by the accrual formula.
    pub reward_rate_per_second: u128,
}

/// Creates the ledger record of a fresh pool: the configured fields, and
/// nothing staked yet.
pub fn initialize_pool(req: InitializePool) -> (p: Pool)
    ensures
        p == (Pool {
            admin: req.admin,
            stake_asset_id: req.stake_asset_id,
            reward_asset_id: req.reward_asset_id,
            reward_rate_per_second: req.reward_rate_per_second,
            total_staked: 0,
        }),
{
    Pool {
        admin: req.admin,
        stake_asset_id: req.stake_asset_id,
        reward_asset_id: req.reward_asset_id,
        reward_rate_per_second: req.reward_rate_per_second,
        total_staked: 0,
    }
}

} // verus!

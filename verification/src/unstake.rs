//! The unstake operation: withdraw staked assets from the pool.

use vstd::prelude::*;

use crate::errors::StakingError;
use crate::state::{Pool, UserStakeAccount};
use crate::transfer::{LedgerUpdate, TransferAuthority, TransferParty, TransferRequest};
use crate::utils::{accrue_ok, accrued_user, update_rewards};

verus! {

/// The inputs of one unstake request.
#[derive(Clone, Copy, Debug, PartialEq, Eq, Structural)]
pub struct Unstake {
    /// The acting participant; must own the record.
    pub caller: u64,
    /// How much stake to withdraw; must be positive.
    pub amount: u64,
    /// The externally supplied wall-clock timestamp.
    pub now: i64,
}

/// The full meaning of the unstake operation. A zero amount is rejected
/// first, then a caller who does not own the record, then an amount beyond
/// the caller's stake. Rewards are settled *before* the stake is reduced, so
/// the withdrawn amount still earns for the elapsed interval it was staked.
/// Both balances shrink by `req.amount` under checked subtraction; a pool
/// total smaller than the caller's own stake can only mean a corrupted
/// ledger and surfaces as the defensive `MathError`. A participant whose
/// stake reaches exactly zero forfeits any remaining `pending_rewards` and is
/// re-settled at `req.now`: a documented policy, the rounding remainder of a
/// full exit is discarded rather than carried as a dangling claim. The
/// requested transfer moves `req.amount` of the stake asset out of the stake
/// vault to the caller, under the pool's vault authority.
pub open spec fn unstake_spec(pool: Pool, user: UserStakeAccount, req: Unstake) -> Result<
    LedgerUpdate,
    StakingError,
> {
    if req.amount == 0 {
        Err(StakingError::ZeroAmount)
    } else if req.caller != user.owner {
        Err(StakingError::Unauthorized)
    } else if user.amount_staked < req.amount {
        Err(StakingError::InsufficientFunds)
    } else if !accrue_ok(user, pool, req.now) {
        Err(StakingError::Overflow)
    } else if pool.total_staked < req.amount {
        Err(StakingError::MathError)
    } else {
        let u1 = accrued_user(user, pool, req.now);
        let remaining = (u1.amount_staked - req.amount) as u128;
        Ok(
            LedgerUpdate {
                pool: Pool {
                    admin: pool.admin,
                    stake_asset_id: pool.stake_asset_id,
                    reward_asset_id: pool.reward_asset_id,
                    reward_rate_per_second: pool.reward_rate_per_second,
                    total_staked: (pool.total_staked - req.amount) as u128,
                },
                user: UserStakeAccount {
                    owner: u1.owner,
                    amount_staked: remaining,
                    pending_rewards: if remaining == 0 {
                        0
                    } else {
                        u1.pending_rewards
                    },
                    last_update_timestamp: if remaining == 0 {
                        req.now
                    } else {
                        u1.last_update_timestamp
                    },
                },
                transfer: TransferRequest {
                    asset_id: pool.stake_asset_id,
                    from: TransferParty::StakeVault,
                    to: TransferParty::Identity(req.caller),
                    amount: req.amount,
                    authority: TransferAuthority::VaultAuthority,
                },
            },
        )
    }
}

/// Withdraws `req.amount` of the caller's stake.
///
/// The result is exactly `unstake_spec`; on success the pool's total and the
/// caller's stake shrink by the same amount. A failing request, in
/// particular one for more than the caller has staked, changes nothing and
/// requests no transfer.
pub fn unstake(pool: &Pool, user: &UserStakeAccount, req: Unstake) -> (r: Result<
    LedgerUpdate,
    StakingError,
>)
    ensures
        r == unstake_spec(*pool, *user, req),
        r is Ok ==> r->Ok_0.pool.total_staked == pool.total_staked - req.amount,
        r is Ok ==> r->Ok_0.user.amount_staked == user.amount_staked - req.amount,
{
    if req.amount == 0 {
        return Err(StakingError::ZeroAmount);
    }
    if req.caller != user.owner {
        return Err(StakingError::Unauthorized);
    }
    if user.amount_staked < req.amount as u128 {
        return Err(StakingError::InsufficientFunds);
    }
    let mut u = *user;
    match update_rewards(&mut u, pool, req.now) {
        Ok(()) => {},
        Err(e) => {
            return Err(e);
        },
    }
    let new_total: u128 = match pool.total_staked.checked_sub(req.amount as u128) {
        Some(v) => v,
        None => {
            return Err(StakingError::MathError);
        },
    };
    let remaining: u128 = match u.amount_staked.checked_sub(req.amount as u128) {
        Some(v) => v,
        None => {
            return Err(StakingError::InsufficientFunds);
        },
    };
    if remaining == 0 {
        u.pending_rewards = 0;
        u.last_update_timestamp = req.now;
    }
    Ok(
        LedgerUpdate {
            pool: Pool {
                admin: pool.admin,
                stake_asset_id: pool.stake_asset_id,
                reward_asset_id: pool.reward_asset_id,
                reward_rate_per_second: pool.reward_rate_per_second,
                total_staked: new_total,
            },
            user: UserStakeAccount {
                owner: u.owner,
                amount_staked: remaining,
                pending_rewards: u.pending_rewards,
                last_update_timestamp: u.last_update_timestamp,
            },
            transfer: TransferRequest {
                asset_id: pool.stake_asset_id,
                from: TransferParty::StakeVault,
                to: TransferParty::Identity(req.caller),
                amount: req.amount,
                authority: TransferAuthority::VaultAuthority,
            },
        },
    )
}

} // verus!

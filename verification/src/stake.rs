//! The stake operation: deposit the stake asset into the pool.

use vstd::prelude::*;

use crate::errors::StakingError;
use crate::state::{Pool, UserStakeAccount};
use crate::transfer::{LedgerUpdate, TransferAuthority, TransferParty, TransferRequest};
use crate::utils::{accrue_ok, accrued_user, update_rewards};

verus! {

/// The inputs of one stake request.
#[derive(Clone, Copy, Debug, PartialEq, Eq, Structural)]
pub struct Stake {
    /// The acting participant.
    pub caller: u64,
    /// The asset the caller offers; must be the pool's stake asset.
    pub asset_id: u64,
    /// How much to stake; must be positive.
    pub amount: u64,
    /// The externally supplied wall-clock timestamp.
    pub now: i64,
}

/// The participant record a stake operation acts on: the existing record, or
/// a fresh one when the participant stakes for the first time.
pub open spec fn stake_base_user(user: Option<UserStakeAccount>, req: Stake) -> UserStakeAccount {
    match user {
        Some(u) => u,
        None => UserStakeAccount {
            owner: req.caller,
            amount_staked: 0,
            pending_rewards: 0,
            last_update_timestamp: req.now,
        },
    }
}

/// The full meaning of the stake operation: which inputs are rejected, with
/// which error, and the exact outcome otherwise. A zero amount is rejected
/// first, then a wrong asset; the participant's rewards are then settled as
/// of `req.now`, and the settled stake and the pool's total both grow by
/// `req.amount`, each under a checked addition. The requested transfer moves
/// `req.amount` of the stake asset from the caller's own account into the
/// stake vault, under the caller's own authority.
pub open spec fn stake_spec(pool: Pool, user: Option<UserStakeAccount>, req: Stake) -> Result<
    LedgerUpdate,
    StakingError,
> {
    if req.amount == 0 {
        Err(StakingError::ZeroAmount)
    } else if req.asset_id != pool.stake_asset_id {
        Err(StakingError::InvalidAsset)
    } else {
        let u0 = stake_base_user(user, req);
        if !accrue_ok(u0, pool, req.now) {
            Err(StakingError::Overflow)
        } else {
            let u1 = accrued_user(u0, pool, req.now);
            if u1.amount_staked + req.amount > u128::MAX || pool.total_staked + req.amount
                > u128::MAX {
                Err(StakingError::Overflow)
            } else {
                Ok(
                    LedgerUpdate {
                        pool: Pool {
                            admin: pool.admin,
                            stake_asset_id: pool.stake_asset_id,
                            reward_asset_id: pool.reward_asset_id,
                            reward_rate_per_second: pool.reward_rate_per_second,
                            total_staked: (pool.total_staked + req.amount) as u128,
                        },
                        user: UserStakeAccount {
                            owner: u1.owner,
                            amount_staked: (u1.amount_staked + req.amount) as u128,
                            pending_rewards: u1.pending_rewards,
                            last_update_timestamp: u1.last_update_timestamp,
                        },
                        transfer: TransferRequest {
                            asset_id: pool.stake_asset_id,
                            from: TransferParty::Identity(req.caller),
                            to: TransferParty::StakeVault,
                            amount: req.amount,
                            authority: TransferAuthority::Identity(req.caller),
                        },
                    },
                )
            }
        }
    }
}

/// Stakes `req.amount` of the stake asset for `req.caller`.
///
/// `user` is the caller's existing record, or `None` on a first stake, in
/// which case a fresh record settled at `req.now` is created. The result is
/// exactly `stake_spec`; on success the pool's total and the caller's stake
/// grow by the same amount, and the settlement never moves the caller's
/// timestamp backward.
pub fn stake(pool: &Pool, user: Option<UserStakeAccount>, req: Stake) -> (r: Result<
    LedgerUpdate,
    StakingError,
>)
    ensures
        r == stake_spec(*pool, user, req),
        r is Ok ==> r->Ok_0.pool.total_staked == pool.total_staked + req.amount,
        r is Ok ==> r->Ok_0.user.amount_staked == stake_base_user(user, req).amount_staked
            + req.amount,
        r is Ok ==> r->Ok_0.user.last_update_timestamp >= stake_base_user(
            user,
            req,
        ).last_update_timestamp,
{
    if req.amount == 0 {
        return Err(StakingError::ZeroAmount);
    }
    if req.asset_id != pool.stake_asset_id {
        return Err(StakingError::InvalidAsset);
    }
    let mut u = match user {
        Some(existing) => existing,
        None => UserStakeAccount::new(req.caller, req.now),
    };
    match update_rewards(&mut u, pool, req.now) {
        Ok(()) => {},
        Err(e) => {
            return Err(e);
        },
    }
    let new_amount: u128 = match u.amount_staked.checked_add(req.amount as u128) {
        Some(v) => v,
        None => {
            return Err(StakingError::Overflow);
        },
    };
    let new_total: u128 = match pool.total_staked.checked_add(req.amount as u128) {
        Some(v) => v,
        None => {
            return Err(StakingError::Overflow);
        },
    };
    Ok(
        LedgerUpdate {
            pool: Pool {
                admin: pool.admin,
                stake_asset_id: pool.stake_asset_id,
                reward_asset_id: pool.reward_asset_id,
                reward_rate_per_second: pool.reward_rate_per_second,
                total_staked: new_total,
            },
            user: UserStakeAccount {
                owner: u.owner,
                amount_staked: new_amount,
                pending_rewards: u.pending_rewards,
                last_update_timestamp: u.last_update_timestamp,
            },
            transfer: TransferRequest {
                asset_id: req.asset_id,
                from: TransferParty::Identity(req.caller),
                to: TransferParty::StakeVault,
                amount: req.amount,
                authority: TransferAuthority::Identity(req.caller),
            },
        },
    )
}

} // verus!

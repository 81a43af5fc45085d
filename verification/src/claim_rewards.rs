//! The claim operation: pay out a participant's accrued rewards.

use vstd::prelude::*;

use crate::errors::StakingError;
use crate::state::{Pool, UserStakeAccount};
use crate::transfer::{LedgerUpdate, TransferAuthority, TransferParty, TransferRequest};
use crate::utils::{accrue_ok, accrued_user, update_rewards};

verus! {

/// The inputs of one claim request. A claim takes no amount: it always pays
/// out the full pending balance.
#[derive(Clone, Copy, Debug, PartialEq, Eq, Structural)]
pub struct ClaimRewards {
    /// The acting participant; must own the record.
    pub caller: u64,
    /// The reward vault's current balance, read by the host from the custody
    /// collaborator: the solvency check compares against the pool's actual
    /// backing, independent of accrual bookkeeping.
    pub reward_vault_balance: u64,
    /// The externally supplied wall-clock timestamp.
    pub now: i64,
}

/// The full meaning of the claim operation. A caller who does not own the
/// record is rejected; rewards are then settled as of `req.now`, and the
/// whole settled pending balance is claimed. Nothing pending fails
/// `NoRewardsAccrued`; a balance too wide for the collaborator's transfer
/// amount fails `Overflow` rather than truncating; a reward vault holding
/// less than the claim fails `InsufficientFunds`. On success
/// `pending_rewards` is reset to zero, the pool is untouched, and the
/// requested transfer moves the claim out of the reward vault to the caller,
/// under the pool's vault authority.
pub open spec fn claim_rewards_spec(pool: Pool, user: UserStakeAccount, req: ClaimRewards)
    -> Result<LedgerUpdate, StakingError> {
    if req.caller != user.owner {
        Err(StakingError::Unauthorized)
    } else if !accrue_ok(user, pool, req.now) {
        Err(StakingError::Overflow)
    } else {
        let u1 = accrued_user(user, pool, req.now);
        if u1.pending_rewards == 0 {
            Err(StakingError::NoRewardsAccrued)
        } else if u1.pending_rewards > u64::MAX {
            Err(StakingError::Overflow)
        } else if req.reward_vault_balance < u1.pending_rewards {
            Err(StakingError::InsufficientFunds)
        } else {
            Ok(
                LedgerUpdate {
                    pool,
                    user: UserStakeAccount {
                        owner: u1.owner,
                        amount_staked: u1.amount_staked,
                        pending_rewards: 0,
                        last_update_timestamp: u1.last_update_timestamp,
                    },
                    transfer: TransferRequest {
                        asset_id: pool.reward_asset_id,
                        from: TransferParty::RewardVault,
                        to: TransferParty::Identity(req.caller),
                        amount: u1.pending_rewards as u64,
                        authority: TransferAuthority::VaultAuthority,
                    },
                },
            )
        }
    }
}

/// Claims the caller's full settled pending balance.
///
/// The result is exactly `claim_rewards_spec`; on success the returned
/// record carries `pending_rewards == 0`, the transfer pays out exactly what
/// was pending after settlement, and the pool record is unchanged.
pub fn claim_rewards(pool: &Pool, user: &UserStakeAccount, req: ClaimRewards) -> (r: Result<
    LedgerUpdate,
    StakingError,
>)
    ensures
        r == claim_rewards_spec(*pool, *user, req),
        r is Ok ==> r->Ok_0.user.pending_rewards == 0,
        r is Ok ==> r->Ok_0.pool == *pool,
        r is Ok ==> r->Ok_0.transfer.amount == accrued_user(
            *user,
            *pool,
            req.now,
        ).pending_rewards,
{
    if req.caller != user.owner {
        return Err(StakingError::Unauthorized);
    }
    let mut u = *user;
    match update_rewards(&mut u, pool, req.now) {
        Ok(()) => {},
        Err(e) => {
            return Err(e);
        },
    }
    if u.pending_rewards == 0 {
        return Err(StakingError::NoRewardsAccrued);
    }
    if u.pending_rewards > u64::MAX as u128 {
        return Err(StakingError::Overflow);
    }
    let to_claim: u64 = u.pending_rewards as u64;
    if req.reward_vault_balance < to_claim {
        return Err(StakingError::InsufficientFunds);
    }
    Ok(
        LedgerUpdate {
            pool: *pool,
            user: UserStakeAccount {
                owner: u.owner,
                amount_staked: u.amount_staked,
                pending_rewards: 0,
                last_update_timestamp: u.last_update_timestamp,
            },
            transfer: TransferRequest {
                asset_id: pool.reward_asset_id,
                from: TransferParty::RewardVault,
                to: TransferParty::Identity(req.caller),
                amount: to_claim,
                authority: TransferAuthority::VaultAuthority,
            },
        },
    )
}

} // verus!

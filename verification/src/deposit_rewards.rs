//! The funding operation: the admin backs future reward payouts.

use vstd::prelude::*;

use crate::errors::StakingError;
use crate::state::Pool;
use crate::transfer::{TransferAuthority, TransferParty, TransferRequest};

verus! {

/// The inputs of one funding request.
#[derive(Clone, Copy, Debug, PartialEq, Eq, Structural)]
pub struct DepositRewards {
    /// The acting identity; must be the pool's admin.
    pub caller: u64,
    /// The asset offered; must be the pool's reward asset.
    pub asset_id: u64,
    /// How much to deposit into the reward vault; must be positive.
    pub amount: u64,
}

/// The full meaning of the funding operation. A zero amount is rejected
/// first, then a caller other than the pool's admin, then a wrong asset. No
/// ledger field changes and no participant is settled: funding only raises
/// the reward vault's physical backing, which the claim operation later
/// checks for solvency. The requested transfer moves `req.amount` of the
/// reward asset from the admin's own account into the reward vault, under
/// the admin's own authority.
pub open spec fn deposit_rewards_spec(pool: Pool, req: DepositRewards) -> Result<
    TransferRequest,
    StakingError,
> {
    if req.amount == 0 {
        Err(StakingError::ZeroAmount)
    } else if req.caller != pool.admin {
        Err(StakingError::Unauthorized)
    } else if req.asset_id != pool.reward_asset_id {
        Err(StakingError::InvalidAsset)
    } else {
        Ok(
            TransferRequest {
                asset_id: pool.reward_asset_id,
                from: TransferParty::Identity(req.caller),
                to: TransferParty::RewardVault,
                amount: req.amount,
                authority: TransferAuthority::Identity(req.caller),
            },
        )
    }
}

/// Deposits `req.amount` of the reward asset into the reward vault.
///
/// The result is exactly `deposit_rewards_spec`: only the pool's admin may
/// fund, only with the configured reward asset, and the operation returns
/// the transfer to perform without touching any ledger record.
pub fn deposit_rewards(pool: &Pool, req: DepositRewards) -> (r: Result<
    TransferRequest,
    StakingError,
>)
    ensures
        r == deposit_rewards_spec(*pool, req),
{
    if req.amount == 0 {
        return Err(StakingError::ZeroAmount);
    }
    if req.caller != pool.admin {
        return Err(StakingError::Unauthorized);
    }
    if req.asset_id != pool.reward_asset_id {
        return Err(StakingError::InvalidAsset);
    }
    Ok(
        TransferRequest {
            asset_id: req.asset_id,
            from: TransferParty::Identity(req.caller),
            to: TransferParty::RewardVault,
            amount: req.amount,
            authority: TransferAuthority::Identity(req.caller),
        },
    )
}

} // verus!

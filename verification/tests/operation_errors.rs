//! Each rejection an operation can produce, from an input that provokes it.

use staking_rewards::claim_rewards::{claim_rewards, ClaimRewards};
use staking_rewards::deposit_rewards::{deposit_rewards, DepositRewards};
use staking_rewards::errors::StakingError;
use staking_rewards::stake::{stake, Stake};
use staking_rewards::state::{Pool, UserStakeAccount};
use staking_rewards::transfer::{TransferAuthority, TransferParty};
use staking_rewards::unstake::{unstake, Unstake};

const ADMIN: u64 = 1;
const STAKE_ASSET: u64 = 10;
const REWARD_ASSET: u64 = 11;
const USER_A: u64 = 100;
const INTRUDER: u64 = 999;

fn pool_with(total: u128) -> Pool {
    Pool {
        admin: ADMIN,
        stake_asset_id: STAKE_ASSET,
        reward_asset_id: REWARD_ASSET,
        reward_rate_per_second: 100,
        total_staked: total,
    }
}

fn user_with(amount: u128, pending: u128, last: i64) -> UserStakeAccount {
    UserStakeAccount {
        owner: USER_A,
        amount_staked: amount,
        pending_rewards: pending,
        last_update_timestamp: last,
    }
}

#[test]
fn stake_zero_amount_is_rejected() {
    let r = stake(
        &pool_with(0),
        None,
        Stake { caller: USER_A, asset_id: STAKE_ASSET, amount: 0, now: 0 },
    );
    assert_eq!(r, Err(StakingError::ZeroAmount));
}

#[test]
fn stake_wrong_asset_is_rejected() {
    let r = stake(
        &pool_with(0),
        None,
        Stake { caller: USER_A, asset_id: REWARD_ASSET, amount: 5, now: 0 },
    );
    assert_eq!(r, Err(StakingError::InvalidAsset));
}

#[test]
fn stake_overflowing_the_ledger_is_rejected() {
    let pool = pool_with(u128::MAX);
    let user = user_with(u128::MAX, 0, 0);
    let r = stake(
        &pool,
        Some(user),
        Stake { caller: USER_A, asset_id: STAKE_ASSET, amount: 1, now: 0 },
    );
    assert_eq!(r, Err(StakingError::Overflow));
}

#[test]
fn stake_largest_single_amount_succeeds() {
    let r = stake(
        &pool_with(0),
        None,
        Stake { caller: USER_A, asset_id: STAKE_ASSET, amount: u64::MAX, now: 0 },
    )
    .unwrap();
    assert_eq!(r.pool.total_staked, u64::MAX as u128);
    assert_eq!(r.user.amount_staked, u64::MAX as u128);
}

#[test]
fn unstake_zero_amount_is_rejected() {
    let r = unstake(
        &pool_with(1000),
        &user_with(1000, 0, 0),
        Unstake { caller: USER_A, amount: 0, now: 0 },
    );
    assert_eq!(r, Err(StakingError::ZeroAmount));
}

#[test]
fn unstake_by_non_owner_is_rejected() {
    let r = unstake(
        &pool_with(1000),
        &user_with(1000, 0, 0),
        Unstake { caller: INTRUDER, amount: 10, now: 0 },
    );
    assert_eq!(r, Err(StakingError::Unauthorized));
}

#[test]
fn unstake_from_corrupt_total_is_a_math_error() {
    // A pool total smaller than the caller's own stake cannot arise from the
    // operations themselves; the checked subtraction still refuses it.
    let r = unstake(
        &pool_with(500),
        &user_with(1000, 0, 0),
        Unstake { caller: USER_A, amount: 600, now: 0 },
    );
    assert_eq!(r, Err(StakingError::MathError));
}

#[test]
fn partial_unstake_keeps_pending() {
    let pool = pool_with(1000);
    let user = user_with(1000, 0, 0);
    let upd = unstake(&pool, &user, Unstake { caller: USER_A, amount: 400, now: 10 }).unwrap();
    assert_eq!(upd.user.amount_staked, 600);
    // Settlement ran before the stake was reduced: the withdrawn amount
    // still earned for the elapsed ten seconds.
    assert_eq!(upd.user.pending_rewards, 1000 * 100 * 10 / 1000);
    assert_eq!(upd.user.last_update_timestamp, 10);
    assert_eq!(upd.pool.total_staked, 600);
}

#[test]
fn claim_by_non_owner_is_rejected() {
    let r = claim_rewards(
        &pool_with(1000),
        &user_with(1000, 500, 0),
        ClaimRewards { caller: INTRUDER, reward_vault_balance: 1000, now: 0 },
    );
    assert_eq!(r, Err(StakingError::Unauthorized));
}

#[test]
fn claim_with_nothing_pending_is_rejected() {
    let r = claim_rewards(
        &pool_with(0),
        &user_with(0, 0, 0),
        ClaimRewards { caller: USER_A, reward_vault_balance: 1000, now: 5 },
    );
    assert_eq!(r, Err(StakingError::NoRewardsAccrued));
}

#[test]
fn claim_wider_than_transfer_amount_is_rejected() {
    // A pending balance that does not fit the collaborator's amount type
    // must fail rather than silently truncate.
    let r = claim_rewards(
        &pool_with(1000),
        &user_with(1000, u64::MAX as u128 + 1, 20),
        ClaimRewards { caller: USER_A, reward_vault_balance: u64::MAX, now: 20 },
    );
    assert_eq!(r, Err(StakingError::Overflow));
}

#[test]
fn claim_beyond_vault_backing_is_rejected() {
    let r = claim_rewards(
        &pool_with(1000),
        &user_with(1000, 1500, 20),
        ClaimRewards { caller: USER_A, reward_vault_balance: 1499, now: 20 },
    );
    assert_eq!(r, Err(StakingError::InsufficientFunds));
}

#[test]
fn deposit_zero_amount_is_rejected() {
    let r = deposit_rewards(
        &pool_with(0),
        DepositRewards { caller: ADMIN, asset_id: REWARD_ASSET, amount: 0 },
    );
    assert_eq!(r, Err(StakingError::ZeroAmount));
}

#[test]
fn deposit_by_non_admin_is_rejected() {
    let r = deposit_rewards(
        &pool_with(0),
        DepositRewards { caller: INTRUDER, asset_id: REWARD_ASSET, amount: 50 },
    );
    assert_eq!(r, Err(StakingError::Unauthorized));
}

#[test]
fn deposit_wrong_asset_is_rejected() {
    let r = deposit_rewards(
        &pool_with(0),
        DepositRewards { caller: ADMIN, asset_id: STAKE_ASSET, amount: 50 },
    );
    assert_eq!(r, Err(StakingError::InvalidAsset));
}

#[test]
fn deposit_requests_the_funding_transfer() {
    let t = deposit_rewards(
        &pool_with(123),
        DepositRewards { caller: ADMIN, asset_id: REWARD_ASSET, amount: 50 },
    )
    .unwrap();
    assert_eq!(t.asset_id, REWARD_ASSET);
    assert_eq!(t.from, TransferParty::Identity(ADMIN));
    assert_eq!(t.to, TransferParty::RewardVault);
    assert_eq!(t.amount, 50);
    assert_eq!(t.authority, TransferAuthority::Identity(ADMIN));
}

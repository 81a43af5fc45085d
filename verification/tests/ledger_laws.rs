//! The global guarantees exercised on concrete histories: conservation of
//! the pool total, non-negativity, monotone settlement times, and the
//! claim-then-reclaim behaviour.

use staking_rewards::claim_rewards::{claim_rewards, ClaimRewards};
use staking_rewards::errors::StakingError;
use staking_rewards::initialize_pool::{initialize_pool, InitializePool};
use staking_rewards::stake::{stake, Stake};
use staking_rewards::state::{Pool, UserStakeAccount};
use staking_rewards::unstake::{unstake, Unstake};
use staking_rewards::utils::update_rewards;

const ADMIN: u64 = 1;
const STAKE_ASSET: u64 = 10;
const REWARD_ASSET: u64 = 11;
const USER_A: u64 = 100;
const USER_B: u64 = 101;

fn fresh_pool() -> Pool {
    initialize_pool(InitializePool {
        admin: ADMIN,
        stake_asset_id: STAKE_ASSET,
        reward_asset_id: REWARD_ASSET,
        reward_rate_per_second: 100,
    })
}

fn total_of(users: &[UserStakeAccount]) -> u128 {
    users.iter().map(|u| u.amount_staked).sum()
}

#[test]
fn total_staked_equals_sum_after_every_operation() {
    // Two participants stake and unstake in turn; after every committed
    // operation the pool's total equals the sum of their stakes, and no
    // balance is ever negative (they are unsigned throughout).
    let mut pool = fresh_pool();

    let upd = stake(
        &pool,
        None,
        Stake { caller: USER_A, asset_id: STAKE_ASSET, amount: 1000, now: 0 },
    )
    .unwrap();
    pool = upd.pool;
    let mut user_a = upd.user;
    assert_eq!(pool.total_staked, total_of(&[user_a]));

    let upd = stake(
        &pool,
        None,
        Stake { caller: USER_B, asset_id: STAKE_ASSET, amount: 250, now: 4 },
    )
    .unwrap();
    pool = upd.pool;
    let mut user_b = upd.user;
    assert_eq!(pool.total_staked, total_of(&[user_a, user_b]));

    let upd = stake(
        &pool,
        Some(user_a),
        Stake { caller: USER_A, asset_id: STAKE_ASSET, amount: 500, now: 9 },
    )
    .unwrap();
    pool = upd.pool;
    user_a = upd.user;
    assert_eq!(pool.total_staked, total_of(&[user_a, user_b]));
    assert_eq!(pool.total_staked, 1750);

    let upd = unstake(&pool, &user_b, Unstake { caller: USER_B, amount: 250, now: 12 }).unwrap();
    pool = upd.pool;
    user_b = upd.user;
    assert_eq!(pool.total_staked, total_of(&[user_a, user_b]));

    let upd = unstake(&pool, &user_a, Unstake { caller: USER_A, amount: 700, now: 15 }).unwrap();
    pool = upd.pool;
    user_a = upd.user;
    assert_eq!(pool.total_staked, total_of(&[user_a, user_b]));
    assert_eq!(pool.total_staked, 800);

    // A failed operation commits nothing, so the relation still holds.
    let r = unstake(&pool, &user_b, Unstake { caller: USER_B, amount: 1, now: 16 });
    assert_eq!(r, Err(StakingError::InsufficientFunds));
    assert_eq!(pool.total_staked, total_of(&[user_a, user_b]));
}

#[test]
fn settlement_time_never_decreases() {
    // Across a stake, settlements, a claim and a partial unstake, a
    // participant's last_update_timestamp is non-decreasing.
    let mut pool = fresh_pool();
    let mut seen: Vec<i64> = Vec::new();

    let upd = stake(
        &pool,
        None,
        Stake { caller: USER_A, asset_id: STAKE_ASSET, amount: 1000, now: 5 },
    )
    .unwrap();
    pool = upd.pool;
    let mut user_a = upd.user;
    seen.push(user_a.last_update_timestamp);

    assert_eq!(update_rewards(&mut user_a, &pool, 7), Ok(()));
    seen.push(user_a.last_update_timestamp);

    // A backward clock settles nothing and moves nothing back.
    assert_eq!(update_rewards(&mut user_a, &pool, 3), Ok(()));
    seen.push(user_a.last_update_timestamp);

    let upd = claim_rewards(
        &pool,
        &user_a,
        ClaimRewards { caller: USER_A, reward_vault_balance: u64::MAX, now: 9 },
    )
    .unwrap();
    user_a = upd.user;
    seen.push(user_a.last_update_timestamp);

    let upd = unstake(&pool, &user_a, Unstake { caller: USER_A, amount: 400, now: 12 }).unwrap();
    user_a = upd.user;
    seen.push(user_a.last_update_timestamp);

    assert_eq!(seen, vec![5, 7, 7, 9, 12]);
    for pair in seen.windows(2) {
        assert!(pair[0] <= pair[1]);
    }
}

#[test]
fn claim_then_immediate_reclaim_fails() {
    // A successful claim zeroes the pending balance; claiming again at the
    // same instant finds nothing accrued.
    let pool = Pool {
        admin: ADMIN,
        stake_asset_id: STAKE_ASSET,
        reward_asset_id: REWARD_ASSET,
        reward_rate_per_second: 100,
        total_staked: 1000,
    };
    let user_a = UserStakeAccount {
        owner: USER_A,
        amount_staked: 1000,
        pending_rewards: 0,
        last_update_timestamp: 0,
    };
    let mut settled = user_a;
    assert_eq!(update_rewards(&mut settled, &pool, 10), Ok(()));
    let upd = claim_rewards(
        &pool,
        &settled,
        ClaimRewards { caller: USER_A, reward_vault_balance: u64::MAX, now: 10 },
    )
    .unwrap();
    assert_eq!(upd.user.pending_rewards, 0);

    let again = claim_rewards(
        &pool,
        &upd.user,
        ClaimRewards { caller: USER_A, reward_vault_balance: u64::MAX, now: 10 },
    );
    assert_eq!(again, Err(StakingError::NoRewardsAccrued));
}

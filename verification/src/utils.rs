//! Reward accrual: settling one participant's ledger up to a supplied
//! timestamp.
//!
//! Every balance-changing operation settles the acting participant first,
//! against the pool's denominator as it stands at that moment. Because the
//! denominator is only changed after the settlement, each interval of
//! constant `total_staked` is fully and exactly settled before the
//! denominator moves.

use vstd::prelude::*;

use crate::errors::StakingError;
use crate::state::{Pool, UserStakeAccount};

verus! {

/// The mathematical product `amount_staked * rate * elapsed`, before the
/// division by the pool's total stake.
pub open spec fn reward_product(user: UserStakeAccount, pool: Pool, now: i64) -> int {
    (user.amount_staked as int) * (pool.reward_rate_per_second as int) * (now
        - user.last_update_timestamp)
}

/// The reward owed to `user` for the time elapsed since its last settlement:
/// `floor(amount_staked * rate * elapsed / total_staked)`. Meaningful only
/// when `total_staked > 0`. The floor forfeits the fractional remainder:
/// rounding down is the documented policy, never borrowed against.
pub open spec fn accrual_delta(user: UserStakeAccount, pool: Pool, now: i64) -> int {
    reward_product(user, pool, now) / (pool.total_staked as int)
}

/// Whether settling `user` at `now` stays within the integer range. The
/// paths that compute no reward (backward clock, nothing elapsed, zero stake,
/// zero denominator) always succeed; otherwise the three-operand product and
/// the pending-reward sum must both fit in the ledger's width.
pub open spec fn accrue_ok(user: UserStakeAccount, pool: Pool, now: i64) -> bool {
    if now <= user.last_update_timestamp || user.amount_staked == 0 || pool.total_staked == 0 {
        true
    } else {
        reward_product(user, pool, now) <= u128::MAX && user.pending_rewards + accrual_delta(
            user,
            pool,
            now,
        ) <= u128::MAX
    }
}

/// The settled record: what `user` becomes when settled at `now`. Meaningful
/// under `accrue_ok`. A backward clock (`now` before the last settlement) is
/// a defensive no-op; a settlement that computes no reward still advances the
/// timestamp; otherwise the accrued delta is added to `pending_rewards`.
/// `owner` and `amount_staked` are never touched.
pub open spec fn accrued_user(user: UserStakeAccount, pool: Pool, now: i64) -> UserStakeAccount {
    if now < user.last_update_timestamp {
        user
    } else if user.amount_staked == 0 || pool.total_staked == 0 || now
        == user.last_update_timestamp {
        UserStakeAccount {
            owner: user.owner,
            amount_staked: user.amount_staked,
            pending_rewards: user.pending_rewards,
            last_update_timestamp: now,
        }
    } else {
        UserStakeAccount {
            owner: user.owner,
            amount_staked: user.amount_staked,
            pending_rewards: (user.pending_rewards + accrual_delta(user, pool, now)) as u128,
            last_update_timestamp: now,
        }
    }
}

/// Settles `user`'s rewards as of `now`.
///
/// On success the record is exactly `accrued_user`; on arithmetic overflow
/// the operation fails with `Overflow` and the record is left untouched, so
/// the caller commits nothing.
pub fn update_rewards(user: &mut UserStakeAccount, pool: &Pool, now: i64) -> (r: Result<
    (),
    StakingError,
>)
    ensures
        accrue_ok(*old(user), *pool, now) ==> r is Ok && *final(user) == accrued_user(
            *old(user),
            *pool,
            now,
        ),
        !accrue_ok(*old(user), *pool, now) ==> r == Err::<(), StakingError>(
            StakingError::Overflow,
        ) && *final(user) == *old(user),
{
    if now < user.last_update_timestamp {
        return Ok(());
    }
    if user.amount_staked == 0 || pool.total_staked == 0 || now == user.last_update_timestamp {
        user.last_update_timestamp = now;
        return Ok(());
    }
    let elapsed_wide: i128 = (now as i128) - (user.last_update_timestamp as i128);
    let elapsed: u128 = elapsed_wide as u128;
    let stake_rate: u128 = match user.amount_staked.checked_mul(pool.reward_rate_per_second) {
        Some(v) => v,
        None => {
            proof {
                lemma_product_overflow_propagates(*user, *pool, now);
            }
            return Err(StakingError::Overflow);
        },
    };
    let product: u128 = match stake_rate.checked_mul(elapsed) {
        Some(v) => v,
        None => {
            return Err(StakingError::Overflow);
        },
    };
    let delta: u128 = product / pool.total_staked;
    let new_pending: u128 = match user.pending_rewards.checked_add(delta) {
        Some(v) => v,
        None => {
            return Err(StakingError::Overflow);
        },
    };
    user.pending_rewards = new_pending;
    user.last_update_timestamp = now;
    Ok(())
}

/// When the stake-times-rate factor alone exceeds the ledger's width, so
/// does the full three-operand product: at least one second has elapsed.
proof fn lemma_product_overflow_propagates(user: UserStakeAccount, pool: Pool, now: i64)
    requires
        now > user.last_update_timestamp,
        (user.amount_staked as int) * (pool.reward_rate_per_second as int) > u128::MAX,
    ensures
        reward_product(user, pool, now) > u128::MAX,
{
    let f = (user.amount_staked as int) * (pool.reward_rate_per_second as int);
    let e = now - user.last_update_timestamp;
    assert(f * e >= f) by (nonlinear_arith)
        requires
            f > 0,
            e >= 1,
    ;
}

} // verus!

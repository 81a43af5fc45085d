//! The ledger's global guarantees, stated and proved over the operation
//! specifications.
//!
//! A history is modelled as a pool, a sequence of participant records, and a
//! sequence of operations applied one after the other; failing operations
//! leave the state untouched, exactly as the host's commit discipline does.

use vstd::prelude::*;

use crate::claim_rewards::{claim_rewards_spec, ClaimRewards};
use crate::errors::StakingError;
use crate::stake::{stake_spec, Stake};
use crate::state::{Pool, UserStakeAccount};
use crate::transfer::LedgerUpdate;
use crate::unstake::{unstake_spec, Unstake};
use crate::utils::{accrue_ok, accrued_user};

verus! {

/// One ledger-touching operation of a history. Funding is absent on
/// purpose: it changes no ledger field. The acting participant is named by
/// its position among the records; a stake at position `users.len()` is a
/// first stake and creates a record.
#[derive(Clone, Copy, Debug, PartialEq, Eq, Structural)]
pub enum PoolOp {
    /// The participant at `user` stakes `amount` at time `now`.
    Stake { user: usize, amount: u64, now: i64 },
    /// The participant at `user` withdraws `amount` at time `now`.
    Unstake { user: usize, amount: u64, now: i64 },
    /// The participant at `user` claims its pending rewards at time `now`,
    /// against a reward vault holding `reward_vault_balance`.
    Claim { user: usize, reward_vault_balance: u64, now: i64 },
}

/// The timestamp an operation acts at.
pub open spec fn op_now(op: PoolOp) -> i64 {
    match op {
        PoolOp::Stake { user: _, amount: _, now } => now,
        PoolOp::Unstake { user: _, amount: _, now } => now,
        PoolOp::Claim { user: _, reward_vault_balance: _, now } => now,
    }
}

/// Applies one operation to the ledger. A new record is created only by a
/// stake addressed one past the end; an operation that fails, or addresses
/// no record, changes nothing.
pub open spec fn apply_op(pool: Pool, users: Seq<UserStakeAccount>, op: PoolOp) -> (
    Pool,
    Seq<UserStakeAccount>,
) {
    match op {
        PoolOp::Stake { user: i, amount, now } => {
            if (i as int) < users.len() {
                let req = Stake {
                    caller: users[i as int].owner,
                    asset_id: pool.stake_asset_id,
                    amount,
                    now,
                };
                match stake_spec(pool, Some(users[i as int]), req) {
                    Ok(upd) => (upd.pool, users.update(i as int, upd.user)),
                    Err(_) => (pool, users),
                }
            } else if i as int == users.len() {
                let req = Stake { caller: i as u64, asset_id: pool.stake_asset_id, amount, now };
                match stake_spec(pool, None, req) {
                    Ok(upd) => (upd.pool, users.push(upd.user)),
                    Err(_) => (pool, users),
                }
            } else {
                (pool, users)
            }
        },
        PoolOp::Unstake { user: i, amount, now } => {
            if (i as int) < users.len() {
                let req = Unstake { caller: users[i as int].owner, amount, now };
                match unstake_spec(pool, users[i as int], req) {
                    Ok(upd) => (upd.pool, users.update(i as int, upd.user)),
                    Err(_) => (pool, users),
                }
            } else {
                (pool, users)
            }
        },
        PoolOp::Claim { user: i, reward_vault_balance, now } => {
            if (i as int) < users.len() {
                let req = ClaimRewards {
                    caller: users[i as int].owner,
                    reward_vault_balance,
                    now,
                };
                match claim_rewards_spec(pool, users[i as int], req) {
                    Ok(upd) => (upd.pool, users.update(i as int, upd.user)),
                    Err(_) => (pool, users),
                }
            } else {
                (pool, users)
            }
        },
    }
}

/// Applies a whole history, first operation first.
pub open spec fn apply_ops(pool: Pool, users: Seq<UserStakeAccount>, ops: Seq<PoolOp>) -> (
    Pool,
    Seq<UserStakeAccount>,
)
    decreases ops.len(),
{
    if ops.len() == 0 {
        (pool, users)
    } else {
        let stepped = apply_op(pool, users, ops[0]);
        apply_ops(stepped.0, stepped.1, ops.subrange(1, ops.len() as int))
    }
}

/// The sum of all participants' stakes.
pub open spec fn sum_staked(users: Seq<UserStakeAccount>) -> int
    decreases users.len(),
{
    if users.len() == 0 {
        0
    } else {
        sum_staked(users.drop_last()) + users.last().amount_staked
    }
}

/// Replacing one record moves the sum by exactly that record's change.
proof fn lemma_sum_staked_update(users: Seq<UserStakeAccount>, i: int, u: UserStakeAccount)
    requires
        0 <= i < users.len(),
    ensures
        sum_staked(users.update(i, u)) == sum_staked(users) - users[i].amount_staked
            + u.amount_staked,
    decreases users.len(),
{
    if i == users.len() - 1 {
        assert(users.update(i, u).drop_last() =~= users.drop_last());
    } else {
        assert(users.update(i, u).drop_last() =~= users.drop_last().update(i, u));
        lemma_sum_staked_update(users.drop_last(), i, u);
    }
}

/// Appending a record adds exactly its stake to the sum.
proof fn lemma_sum_staked_push(users: Seq<UserStakeAccount>, u: UserStakeAccount)
    ensures
        sum_staked(users.push(u)) == sum_staked(users) + u.amount_staked,
{
    assert(users.push(u).drop_last() =~= users);
}

/// One operation preserves conservation: if the pool's total equals the sum
/// of all stakes, it still does afterwards.
pub proof fn lemma_conservation_step(pool: Pool, users: Seq<UserStakeAccount>, op: PoolOp)
    requires
        pool.total_staked == sum_staked(users),
    ensures
        apply_op(pool, users, op).0.total_staked == sum_staked(apply_op(pool, users, op).1),
{
    match op {
        PoolOp::Stake { user: i, amount, now } => {
            if (i as int) < users.len() {
                let req = Stake {
                    caller: users[i as int].owner,
                    asset_id: pool.stake_asset_id,
                    amount,
                    now,
                };
                match stake_spec(pool, Some(users[i as int]), req) {
                    Ok(upd) => {
                        lemma_sum_staked_update(users, i as int, upd.user);
                    },
                    Err(_) => {},
                }
            } else if i as int == users.len() {
                let req = Stake { caller: i as u64, asset_id: pool.stake_asset_id, amount, now };
                match stake_spec(pool, None, req) {
                    Ok(upd) => {
                        lemma_sum_staked_push(users, upd.user);
                    },
                    Err(_) => {},
                }
            }
        },
        PoolOp::Unstake { user: i, amount, now } => {
            if (i as int) < users.len() {
                let req = Unstake { caller: users[i as int].owner, amount, now };
                match unstake_spec(pool, users[i as int], req) {
                    Ok(upd) => {
                        lemma_sum_staked_update(users, i as int, upd.user);
                    },
                    Err(_) => {},
                }
            }
        },
        PoolOp::Claim { user: i, reward_vault_balance, now } => {
            if (i as int) < users.len() {
                let req = ClaimRewards {
                    caller: users[i as int].owner,
                    reward_vault_balance,
                    now,
                };
                match claim_rewards_spec(pool, users[i as int], req) {
                    Ok(upd) => {
                        lemma_sum_staked_update(users, i as int, upd.user);
                    },
                    Err(_) => {},
                }
            }
        },
    }
}

/// Conservation: over any history of operations, the pool's `total_staked`
/// equals the sum of all participants' `amount_staked` after every step,
/// provided it did at the start — as it does for a fresh pool with no
/// records.
pub proof fn lemma_conservation(pool: Pool, users: Seq<UserStakeAccount>, ops: Seq<PoolOp>)
    requires
        pool.total_staked == sum_staked(users),
    ensures
        apply_ops(pool, users, ops).0.total_staked == sum_staked(apply_ops(pool, users, ops).1),
    decreases ops.len(),
{
    if ops.len() > 0 {
        lemma_conservation_step(pool, users, ops[0]);
        let stepped = apply_op(pool, users, ops[0]);
        lemma_conservation(stepped.0, stepped.1, ops.subrange(1, ops.len() as int));
    }
}

/// Non-negativity: every balance the ledger holds is an unsigned machine
/// integer, so no observable state carries a negative stake, pending reward
/// or pool total.
pub proof fn lemma_balances_nonnegative(pool: Pool, user: UserStakeAccount)
    ensures
        0 <= pool.total_staked,
        0 <= user.amount_staked,
        0 <= user.pending_rewards,
{
}

/// The sum of stakes is never negative, and no single record exceeds it.
proof fn lemma_sum_staked_bounds(users: Seq<UserStakeAccount>, i: int)
    requires
        0 <= i < users.len(),
    ensures
        users[i].amount_staked <= sum_staked(users),
    decreases users.len(),
{
    lemma_sum_staked_nonnegative(users.drop_last());
    if i < users.len() - 1 {
        lemma_sum_staked_bounds(users.drop_last(), i);
    }
}

/// The sum of stakes is never negative.
proof fn lemma_sum_staked_nonnegative(users: Seq<UserStakeAccount>)
    ensures
        0 <= sum_staked(users),
    decreases users.len(),
{
    if users.len() > 0 {
        lemma_sum_staked_nonnegative(users.drop_last());
    }
}

/// No participant out-stakes the pool: wherever the pool's total equals the
/// sum of all stakes — as conservation keeps it — each single record's
/// `amount_staked` is at most `total_staked`.
pub proof fn lemma_user_stake_bounded(pool: Pool, users: Seq<UserStakeAccount>, i: int)
    requires
        pool.total_staked == sum_staked(users),
        0 <= i < users.len(),
    ensures
        users[i].amount_staked <= pool.total_staked,
{
    lemma_sum_staked_bounds(users, i);
}

/// Whether every operation of a history happens no earlier than `t`, in
/// non-decreasing time order.
pub open spec fn clock_monotone_from(ops: Seq<PoolOp>, t: i64) -> bool
    decreases ops.len(),
{
    ops.len() == 0 || (op_now(ops[0]) >= t && clock_monotone_from(
        ops.subrange(1, ops.len() as int),
        op_now(ops[0]),
    ))
}

/// A history monotone from a later bound is monotone from any earlier one.
proof fn lemma_clock_monotone_weaken(ops: Seq<PoolOp>, t1: i64, t2: i64)
    requires
        t1 <= t2,
        clock_monotone_from(ops, t2),
    ensures
        clock_monotone_from(ops, t1),
{
}

/// One operation at or after a record's settlement time never moves that
/// record's `last_update_timestamp` backward, and leaves it at most at the
/// operation's own time.
proof fn lemma_settlement_step(pool: Pool, users: Seq<UserStakeAccount>, op: PoolOp, i: int)
    requires
        0 <= i < users.len(),
        users[i].last_update_timestamp <= op_now(op),
    ensures
        users.len() <= apply_op(pool, users, op).1.len(),
        users[i].last_update_timestamp <= apply_op(pool, users, op).1[i].last_update_timestamp,
        apply_op(pool, users, op).1[i].last_update_timestamp <= op_now(op),
{
}

/// Monotonic settlement time: across any history whose operations act in
/// non-decreasing time order, starting no earlier than a record's current
/// settlement time, that record's `last_update_timestamp` never decreases.
pub proof fn lemma_monotonic_settlement(
    pool: Pool,
    users: Seq<UserStakeAccount>,
    ops: Seq<PoolOp>,
    i: int,
)
    requires
        0 <= i < users.len(),
        clock_monotone_from(ops, users[i].last_update_timestamp),
    ensures
        i < apply_ops(pool, users, ops).1.len(),
        users[i].last_update_timestamp <= apply_ops(pool, users, ops).1[i].last_update_timestamp,
    decreases ops.len(),
{
    if ops.len() > 0 {
        lemma_settlement_step(pool, users, ops[0], i);
        let stepped = apply_op(pool, users, ops[0]);
        let rest = ops.subrange(1, ops.len() as int);
        lemma_clock_monotone_weaken(
            rest,
            stepped.1[i].last_update_timestamp,
            op_now(ops[0]),
        );
        lemma_monotonic_settlement(stepped.0, stepped.1, rest, i);
    }
}

/// Zero-denominator safety: settling a record while the participant or the
/// whole pool has nothing staked never divides, never fails, changes no
/// reward field, and only advances the timestamp.
pub proof fn lemma_zero_denominator_safety(user: UserStakeAccount, pool: Pool, now: i64)
    requires
        user.amount_staked == 0 || pool.total_staked == 0,
    ensures
        accrue_ok(user, pool, now),
        accrued_user(user, pool, now).owner == user.owner,
        accrued_user(user, pool, now).amount_staked == user.amount_staked,
        accrued_user(user, pool, now).pending_rewards == user.pending_rewards,
        accrued_user(user, pool, now).last_update_timestamp == (if now
            >= user.last_update_timestamp {
            now
        } else {
            user.last_update_timestamp
        }),
        accrued_user(user, pool, now).last_update_timestamp >= user.last_update_timestamp,
{
}

/// Backward-clock safety: settling a record at a time before its last
/// settlement is a complete no-op, never an error.
pub proof fn lemma_backward_clock_safety(user: UserStakeAccount, pool: Pool, now: i64)
    requires
        now < user.last_update_timestamp,
    ensures
        accrue_ok(user, pool, now),
        accrued_user(user, pool, now) == user,
{
}

/// Accrual exactness within a stable interval: when the same record is
/// settled at `t1` and again at `t2` with the pool's stake and rate
/// untouched in between, the second settlement adds exactly
/// `floor(amount_staked * rate * (t2 - t1) / total_staked)` to the pending
/// balance.
pub proof fn lemma_accrual_exact_interval(user: UserStakeAccount, pool: Pool, t1: i64, t2: i64)
    requires
        user.last_update_timestamp <= t1,
        t1 <= t2,
        pool.total_staked > 0,
        accrue_ok(user, pool, t1),
        accrue_ok(accrued_user(user, pool, t1), pool, t2),
    ensures
        accrued_user(accrued_user(user, pool, t1), pool, t2).pending_rewards == accrued_user(
            user,
            pool,
            t1,
        ).pending_rewards + (user.amount_staked * pool.reward_rate_per_second * (t2 - t1))
            / (pool.total_staked as int),
{
    let a = user.amount_staked as int;
    let r = pool.reward_rate_per_second as int;
    let total = pool.total_staked as int;
    let e1 = t1 - user.last_update_timestamp;
    let e2 = t2 - t1;
    vstd::arithmetic::mul::lemma_mul_nonnegative(a * r, e1);
    vstd::arithmetic::mul::lemma_mul_nonnegative(a * r, e2);
    vstd::arithmetic::mul::lemma_mul_nonnegative(a, r);
    vstd::arithmetic::div_mod::lemma_div_pos_is_pos(a * r * e1, total);
    vstd::arithmetic::div_mod::lemma_div_pos_is_pos(a * r * e2, total);
    if t2 == t1 || user.amount_staked == 0 {
        assert(a * r * e2 == 0) by (nonlinear_arith)
            requires
                e2 == 0 || a == 0,
        ;
        vstd::arithmetic::div_mod::lemma_div_of0(total);
    }
}

/// Settlement is idempotent at an unchanged timestamp: settling a record a
/// second time at the same instant changes nothing and cannot fail.
pub proof fn lemma_accrual_idempotent(user: UserStakeAccount, pool: Pool, now: i64)
    ensures
        accrue_ok(accrued_user(user, pool, now), pool, now),
        accrued_user(accrued_user(user, pool, now), pool, now) == accrued_user(user, pool, now),
{
}

/// Claim zeroes pending: a successful claim leaves `pending_rewards == 0`,
/// and claiming again at the same instant, whatever the vault then holds,
/// fails `NoRewardsAccrued`.
pub proof fn lemma_claim_zeroes_pending(
    pool: Pool,
    user: UserStakeAccount,
    req: ClaimRewards,
    later_balance: u64,
)
    requires
        claim_rewards_spec(pool, user, req) is Ok,
    ensures
        claim_rewards_spec(pool, user, req)->Ok_0.user.pending_rewards == 0,
        claim_rewards_spec(
            pool,
            claim_rewards_spec(pool, user, req)->Ok_0.user,
            ClaimRewards {
                caller: req.caller,
                reward_vault_balance: later_balance,
                now: req.now,
            },
        ) == Err::<LedgerUpdate, StakingError>(StakingError::NoRewardsAccrued),
{
}

} // verus!

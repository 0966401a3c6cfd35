//! The pool program: pools with a yearly yield and a lock duration, and the
//! reward bookkeeping of their users.
//!
//! Reading the clock is left to the caller, who passes the unix time it got.

use vstd::prelude::*;
use crate::amounts::{pow10, pow10_spec};
use crate::states::{PoolInfo, Total, UserInfo};
use vstd::arithmetic::mul::lemma_mul_inequality;
use vstd::arithmetic::power::pow;

verus! {

/// Seconds in the thirty-day month by which pool durations are counted.
pub open spec fn seconds_per_month() -> int {
    30int * 24 * 60 * 60
}

/// Seconds in the 365-day year over which the yearly yield is spread.
pub open spec fn seconds_per_year() -> int {
    365int * 86400
}

/// A pool set up for yield `apy` and a lock of `duration` months from
/// `unix_timestamp`, the unix time cast to `u64` as the program casts it.
pub open spec fn created_pool(pool: PoolInfo, apy: u8, duration: u8, unix_timestamp: i64) -> PoolInfo {
    PoolInfo {
        duration: (duration * seconds_per_month()) as u64,
        apy: apy,
        last_reward_time: unix_timestamp as u64,
        ..pool
    }
}

/// Sets up the pool for yield `apy` and a lock of `duration` months, with
/// rewards counted from `unix_timestamp`. The stake counters of the pool are
/// kept as they were.
pub fn create_pools(pool: &mut PoolInfo, apy: u8, duration: u8, unix_timestamp: i64)
    ensures
        *final(pool) == created_pool(*old(pool), apy, duration, unix_timestamp),
        final(pool).duration == duration * seconds_per_month(),
        unix_timestamp >= 0 ==> final(pool).last_reward_time == unix_timestamp,
{
    let timestamp: u64 = #[verifier::truncate] (unix_timestamp as u64);
    pool.apy = apy;
    pool.duration = duration as u64 * 30 * 24 * 60 * 60;
    assert(seconds_per_month() == 2592000);
    pool.last_reward_time = timestamp;
}

/// The tokens pending for a user: always 100.
pub fn pending_token() -> (pending: u64)
    ensures
        pending == 100,
{
    100
}

/// Time elapsed from `from` to `to`.
#[allow(non_snake_case)]
pub fn getMultiplier(from: u64, to: u64) -> (multiplier: u64)
    requires
        from <= to,
    ensures
        multiplier == to - from,
{
    let result = to.checked_sub(from).unwrap();
    result
}

/// The reward formula counted in days: supply times yield in percent times
/// days, over a hundred, over the days of a year.
pub open spec fn token_reward(lp_supply: int, apy: int, multiplier: int) -> int {
    lp_supply * apy * multiplier / 100 / 365
}

/// The inputs on which `getTokenReward`'s checked products do not overflow.
pub open spec fn token_reward_in_range(lp_supply: int, apy: int, multiplier: int) -> bool {
    &&& lp_supply * apy <= u64::MAX
    &&& lp_supply * apy * multiplier <= u64::MAX
}

/// `lp_supply * apy * multiplier / 100 / 365`, the reward formula counted
/// in days.
#[allow(non_snake_case)]
pub fn getTokenReward(lp_supply: u64, apy: u64, multiplier: u64) -> (reward: u64)
    requires
        token_reward_in_range(lp_supply as int, apy as int, multiplier as int),
    ensures
        reward == token_reward(lp_supply as int, apy as int, multiplier as int),
{
    let step1 = lp_supply.checked_mul(apy).unwrap();
    let step2 = step1.checked_mul(multiplier).unwrap();
    let step3 = step2.checked_div(100).unwrap();
    let step4 = step3.checked_div(365).unwrap();
    step4
}

/// The reward a pool has earned between its last distribution and
/// `timestamp`: `None` when no time has passed or nothing is staked, else
/// the pool's supply times its yearly yield in percent, spread over the
/// seconds of a year.
pub open spec fn pool_reward(pool: PoolInfo, timestamp: u64) -> Option<int> {
    if timestamp <= pool.last_reward_time || pool.total_supply == 0 {
        None
    } else {
        Some(
            pool.total_supply * pool.apy * (timestamp - pool.last_reward_time) / 100
                / seconds_per_year(),
        )
    }
}

/// The inputs on which `update_pool` computes its reward without overflow.
pub open spec fn update_pool_in_range(pool: PoolInfo, timestamp: u64) -> bool {
    (timestamp > pool.last_reward_time && pool.total_supply != 0) ==> pool.total_supply * pool.apy
        * (timestamp - pool.last_reward_time) <= u64::MAX
}

/// Computes the reward the pool has earned up to `timestamp`, and leaves the
/// pool as it is: the reward is not yet distributed.
pub fn update_pool(pool: &mut PoolInfo, timestamp: u64) -> (token_reward: Option<u64>)
    requires
        update_pool_in_range(*old(pool), timestamp),
    ensures
        *final(pool) == *old(pool),
        match pool_reward(*old(pool), timestamp) {
            None => token_reward is None,
            Some(reward) => token_reward == Some(reward as u64) && reward <= u64::MAX,
        },
{
    if timestamp <= pool.last_reward_time {
        return None;
    }
    let lp_supply = pool.total_supply;
    if lp_supply == 0 {
        return None;
    }
    let multiplier = getMultiplier(pool.last_reward_time, timestamp);
    proof {
        lemma_mul_inequality(1, multiplier as int, lp_supply * pool.apy);
        assert(lp_supply * pool.apy * multiplier == multiplier * (lp_supply * pool.apy))
            by (nonlinear_arith);
    }
    let with_apy = lp_supply.checked_mul(pool.apy as u64).unwrap();
    let with_time = with_apy.checked_mul(multiplier).unwrap();
    let per_hundred = with_time.checked_div(100).unwrap();
    let token_reward = per_hundred.checked_div(365 * 86400).unwrap();
    Some(token_reward)
}

/// Deposits into a pool. Only the pool update runs; the pool, and the
/// user's and the program's records, stay as they were.
pub fn deposit(pool: &mut PoolInfo, _amount: u64, _apy: u8, _duration: u8, unix_timestamp: i64)
    requires
        update_pool_in_range(*old(pool), unix_timestamp as u64),
    ensures
        *final(pool) == *old(pool),
{
    let _ = update_pool(pool, #[verifier::truncate] (unix_timestamp as u64));
}

/// `10^18`, the scale of `acc_token_per_share`.
pub open spec fn share_scale() -> int {
    pow10_spec(18)
}

/// The reward a user has earned and not yet locked up.
pub open spec fn pending_reward(pool: PoolInfo, user: UserInfo) -> int {
    user.amount * pool.acc_token_per_share / share_scale() - user.reward_debt
}

/// The inputs on which `lock_pending_token` neither overflows nor goes
/// below zero.
pub open spec fn lock_pending_in_range(pool: PoolInfo, user: UserInfo, total_stats: Total) -> bool {
    &&& user.amount * pool.acc_token_per_share <= u64::MAX
    &&& pending_reward(pool, user) >= 0
    &&& user.reward_lockedup + pending_reward(pool, user) <= u64::MAX
    &&& total_stats.total_lockedup_rewards + pending_reward(pool, user) <= u64::MAX
}

/// Locks up the user's pending reward: it is added both to the user's
/// locked-up rewards and to the program-wide total, so the two grow by the
/// same amount.
pub fn lock_pending_token(pool: &PoolInfo, user: &mut UserInfo, total_stats: &mut Total)
    requires
        lock_pending_in_range(*pool, *old(user), *old(total_stats)),
    ensures
        *final(user) == (UserInfo {
            reward_lockedup: (old(user).reward_lockedup + pending_reward(*pool, *old(user))) as u64,
            ..*old(user)
        }),
        *final(total_stats) == (Total {
            total_lockedup_rewards: (old(total_stats).total_lockedup_rewards + pending_reward(
                *pool,
                *old(user),
            )) as u64,
            ..*old(total_stats)
        }),
        final(total_stats).total_lockedup_rewards - old(total_stats).total_lockedup_rewards
            == final(user).reward_lockedup - old(user).reward_lockedup,
{
    let scale = pow10(18);
    proof {
        vstd::arithmetic::power::lemma_pow_positive(10, 18);
    }
    let pending = user.amount.checked_mul(pool.acc_token_per_share).unwrap().checked_div(
        scale,
    ).unwrap().checked_sub(user.reward_debt).unwrap();

    user.reward_lockedup = user.reward_lockedup.checked_add(pending).unwrap();
    total_stats.total_lockedup_rewards = total_stats.total_lockedup_rewards.checked_add(
        pending,
    ).unwrap();
}

/// A pool's reward never shrinks as time passes.
pub proof fn lemma_pool_reward_grows_with_time(pool: PoolInfo, earlier: u64, later: u64)
    requires
        pool.last_reward_time < earlier <= later,
        pool.total_supply != 0,
    ensures
        pool_reward(pool, earlier) matches Some(r1) && pool_reward(pool, later) matches Some(r2)
            && r1 <= r2,
{
    let base = pool.total_supply * pool.apy;
    assert(base >= 0) by (nonlinear_arith)
        requires
            pool.total_supply >= 0,
            pool.apy >= 0,
            base == pool.total_supply * pool.apy,
    ;
    lemma_mul_inequality(
        (earlier - pool.last_reward_time) as int,
        (later - pool.last_reward_time) as int,
        base,
    );
    assert(base * (earlier - pool.last_reward_time) == (earlier - pool.last_reward_time) * base)
        by (nonlinear_arith);
    assert(base * (later - pool.last_reward_time) == (later - pool.last_reward_time) * base)
        by (nonlinear_arith);
    let x1 = base * (earlier - pool.last_reward_time);
    let x2 = base * (later - pool.last_reward_time);
    vstd::arithmetic::div_mod::lemma_div_is_ordered(x1, x2, 100);
    vstd::arithmetic::div_mod::lemma_div_is_ordered(x1 / 100, x2 / 100, seconds_per_year());
}

/// A freshly set up pool has earned nothing at the time it was set up, nor
/// at any earlier time.
pub proof fn lemma_created_pool_earns_nothing_yet(
    pool: PoolInfo,
    apy: u8,
    duration: u8,
    unix_timestamp: i64,
    timestamp: u64,
)
    requires
        unix_timestamp >= 0,
        timestamp <= unix_timestamp,
    ensures
        pool_reward(created_pool(pool, apy, duration, unix_timestamp), timestamp) is None,
{
}

/// Supply and yield play the same part in the day-counted reward: swapping
/// them changes neither whether the products fit nor the reward.
pub proof fn lemma_token_reward_symmetric(a: u64, b: u64, c: u64)
    ensures
        token_reward_in_range(a as int, b as int, c as int) == token_reward_in_range(
            b as int,
            a as int,
            c as int,
        ),
        token_reward(a as int, b as int, c as int) == token_reward(b as int, a as int, c as int),
{
    assert(a * b == b * a) by (nonlinear_arith);
    assert(a * b * c == b * a * c) by (nonlinear_arith);
}

/// One instruction of the pool program that reaches a pool account.
pub enum PoolCall {
    CreatePools { apy: u8, duration: u8, unix_timestamp: i64 },
    Deposit { amount: u64, apy: u8, duration: u8, unix_timestamp: i64 },
}

/// The pool after one call: `create_pools` sets it up again, `deposit`
/// leaves it as it is.
pub open spec fn after_pool_call(pool: PoolInfo, call: PoolCall) -> PoolInfo {
    match call {
        PoolCall::CreatePools { apy, duration, unix_timestamp } => created_pool(
            pool,
            apy,
            duration,
            unix_timestamp,
        ),
        PoolCall::Deposit { .. } => pool,
    }
}

/// The pool after a sequence of calls, made in order.
pub open spec fn after_pool_calls(pool: PoolInfo, calls: Seq<PoolCall>) -> PoolInfo
    decreases calls.len(),
{
    if calls.len() == 0 {
        pool
    } else {
        after_pool_call(after_pool_calls(pool, calls.drop_last()), calls.last())
    }
}

/// Whether every `create_pools` of a sequence names yield `apy` and
/// `duration` months: so it is for every call that reaches the pool whose
/// address is derived from `pool_seeds(apy, duration)`.
pub open spec fn creates_only(calls: Seq<PoolCall>, apy: u8, duration: u8) -> bool {
    forall|i: int|
        0 <= i < calls.len() ==> match #[trigger] calls[i] {
            PoolCall::CreatePools { apy: a, duration: d, .. } => a == apy && d == duration,
            PoolCall::Deposit { .. } => true,
        }
}

/// A pool set up with yield `apy` and `duration` months keeps that yield
/// and that duration in seconds through any later calls that reach it.
pub proof fn lemma_pool_keeps_its_parameters(
    pool: PoolInfo,
    apy: u8,
    duration: u8,
    unix_timestamp: i64,
    calls: Seq<PoolCall>,
)
    requires
        creates_only(calls, apy, duration),
    ensures
        after_pool_calls(created_pool(pool, apy, duration, unix_timestamp), calls).apy == apy,
        after_pool_calls(created_pool(pool, apy, duration, unix_timestamp), calls).duration
            == duration * seconds_per_month(),
    decreases calls.len(),
{
    assert(seconds_per_month() == 2592000);
    if calls.len() > 0 {
        assert(creates_only(calls.drop_last(), apy, duration)) by {
            assert forall|i: int| 0 <= i < calls.drop_last().len() implies match #[trigger] calls.drop_last()[i] {
                PoolCall::CreatePools { apy: a, duration: d, .. } => a == apy && d == duration,
                PoolCall::Deposit { .. } => true,
            } by {
                assert(calls.drop_last()[i] == calls[i]);
            }
        }
        lemma_pool_keeps_its_parameters(pool, apy, duration, unix_timestamp, calls.drop_last());
        assert(match calls[calls.len() - 1] {
            PoolCall::CreatePools { apy: a, duration: d, .. } => a == apy && d == duration,
            PoolCall::Deposit { .. } => true,
        });
    }
}

/// Once time has passed and something is staked, a pool's reward is its
/// supply times its yield in percent times the seconds elapsed, over a
/// hundred, over the 31,536,000 seconds of a year: the largest whole number
/// whose product with 3,153,600,000 does not exceed that product. Nothing
/// else about the pool enters: neither its duration nor its accumulated
/// reward per share.
pub proof fn lemma_pool_reward_formula(pool: PoolInfo, timestamp: u64, duration: u64, acc: u64)
    requires
        pool.last_reward_time < timestamp,
        pool.total_supply != 0,
    ensures
        pool_reward(pool, timestamp) == Some(
            pool.total_supply * pool.apy * (timestamp - pool.last_reward_time) / 100 / 31536000,
        ),
        pool_reward(pool, timestamp) matches Some(r) && r * 3153600000 <= pool.total_supply
            * pool.apy * (timestamp - pool.last_reward_time) < (r + 1) * 3153600000,
        pool_reward(PoolInfo { duration: duration, acc_token_per_share: acc, ..pool }, timestamp)
            == pool_reward(pool, timestamp),
{
    let x = pool.total_supply * pool.apy * (timestamp - pool.last_reward_time);
    assert(x >= 0) by (nonlinear_arith)
        requires
            x == pool.total_supply * pool.apy * (timestamp - pool.last_reward_time),
            pool.total_supply >= 0,
            pool.apy >= 0,
            timestamp - pool.last_reward_time >= 0,
    ;
    assert(seconds_per_year() == 31536000);
    vstd::arithmetic::div_mod::lemma_div_denominator(x, 100, 31536000);
    vstd::arithmetic::div_mod::lemma_fundamental_div_mod(x, 3153600000);
}

/// No reward is counted before time has passed or while nothing is
/// staked.
pub proof fn lemma_pool_reward_none(pool: PoolInfo, timestamp: u64)
    requires
        timestamp <= pool.last_reward_time || pool.total_supply == 0,
    ensures
        pool_reward(pool, timestamp) is None,
{
}

/// The day-counted reward is the largest whole number whose product with
/// 36,500 does not exceed supply times yield times days.
pub proof fn lemma_token_reward_formula(lp_supply: u64, apy: u64, multiplier: u64)
    ensures
        token_reward(lp_supply as int, apy as int, multiplier as int) * 36500 <= lp_supply * apy
            * multiplier < (token_reward(lp_supply as int, apy as int, multiplier as int) + 1)
            * 36500,
{
    let x = lp_supply * apy * multiplier;
    assert(x >= 0) by (nonlinear_arith)
        requires
            x == lp_supply * apy * multiplier,
            lp_supply >= 0,
            apy >= 0,
            multiplier >= 0,
    ;
    vstd::arithmetic::div_mod::lemma_div_denominator(x, 100, 365);
    vstd::arithmetic::div_mod::lemma_fundamental_div_mod(x, 36500);
}

/// A user's pending reward is the staked amount times the accumulated
/// reward per share, scaled down by 10^18, less what was already accounted
/// for.
pub proof fn lemma_pending_reward_formula(pool: PoolInfo, user: UserInfo)
    ensures
        pending_reward(pool, user) == user.amount * pool.acc_token_per_share
            / 1_000_000_000_000_000_000 - user.reward_debt,
        pending_reward(pool, user) == user.amount * pool.acc_token_per_share / pow(10, 18)
            - user.reward_debt,
{
    reveal_with_fuel(pow, 19);
}

/// Setting up a pool stores the yield as given, the duration in seconds of
/// thirty-day months, and the time as the program casts it (the time itself
/// when it is not negative); the pool's stake counters are kept.
pub proof fn lemma_created_pool_fields(pool: PoolInfo, apy: u8, duration: u8, unix_timestamp: i64)
    ensures
        created_pool(pool, apy, duration, unix_timestamp).apy == apy,
        created_pool(pool, apy, duration, unix_timestamp).duration == duration * 2592000,
        created_pool(pool, apy, duration, unix_timestamp).last_reward_time == unix_timestamp as u64,
        unix_timestamp >= 0 ==> created_pool(pool, apy, duration, unix_timestamp).last_reward_time
            == unix_timestamp,
        created_pool(pool, apy, duration, unix_timestamp).acc_token_per_share
            == pool.acc_token_per_share,
        created_pool(pool, apy, duration, unix_timestamp).total_supply == pool.total_supply,
{
    assert(seconds_per_month() == 2592000);
}

} // verus!

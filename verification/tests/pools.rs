use staking_program::amounts::pow10;
use staking_program::pools::{
    create_pools, deposit, getMultiplier, getTokenReward, lock_pending_token, pending_token,
    update_pool,
};
use staking_program::states::{PoolInfo, Total, UserInfo};

fn pool() -> PoolInfo {
    PoolInfo { duration: 0, apy: 0, last_reward_time: 0, acc_token_per_share: 7, total_supply: 9 }
}

#[test]
fn create_pools_sets_yield_duration_and_time() {
    let mut p = pool();
    create_pools(&mut p, 12, 3, 1_700_000_000);
    assert_eq!(
        p,
        PoolInfo {
            duration: 3 * 30 * 24 * 60 * 60,
            apy: 12,
            last_reward_time: 1_700_000_000,
            acc_token_per_share: 7,
            total_supply: 9,
        }
    );
}

#[test]
fn create_pools_longest_duration() {
    let mut p = pool();
    create_pools(&mut p, 255, 255, 0);
    assert_eq!(p.duration, 660_960_000);
}

#[test]
fn create_pools_negative_time_wraps() {
    let mut p = pool();
    create_pools(&mut p, 1, 1, -1);
    assert_eq!(p.last_reward_time, u64::MAX);
}

#[test]
fn pending_token_is_constant() {
    assert_eq!(pending_token(), 100);
}

#[test]
fn multiplier_is_elapsed_time() {
    assert_eq!(getMultiplier(10, 25), 15);
    assert_eq!(getMultiplier(4, 4), 0);
}

#[test]
fn token_reward_formula() {
    assert_eq!(getTokenReward(1_000, 10, 365), 1_000 * 10 * 365 / 100 / 365);
    assert_eq!(getTokenReward(1_000, 10, 365), 100);
    assert_eq!(getTokenReward(5, 3, 0), 0);
}

#[test]
fn update_pool_reward_and_no_change() {
    let mut p = PoolInfo {
        duration: 0,
        apy: 10,
        last_reward_time: 1_000,
        acc_token_per_share: 0,
        total_supply: 1_000_000,
    };
    let before = p;
    let year = 365 * 86_400;
    assert_eq!(update_pool(&mut p, 1_000 + year), Some(100_000));
    assert_eq!(p, before);
    assert_eq!(update_pool(&mut p, 1_000), None);
    assert_eq!(update_pool(&mut p, 999), None);
    assert_eq!(update_pool(&mut p, 1_000 + year / 2), Some(50_000));
}

#[test]
fn update_pool_without_supply() {
    let mut p = PoolInfo { duration: 0, apy: 50, last_reward_time: 0, acc_token_per_share: 0, total_supply: 0 };
    assert_eq!(update_pool(&mut p, 1_000_000), None);
}

#[test]
fn pool_reward_grows_with_time() {
    let mut p = PoolInfo { duration: 0, apy: 20, last_reward_time: 0, acc_token_per_share: 0, total_supply: 1 << 40 };
    let a = update_pool(&mut p, 1_000).unwrap();
    let b = update_pool(&mut p, 2_000).unwrap();
    assert!(a <= b);
    assert!(a > 0);
}

#[test]
fn created_pool_earns_nothing_yet() {
    let mut p = pool();
    create_pools(&mut p, 40, 6, 5_000);
    assert_eq!(update_pool(&mut p, 5_000), None);
    assert_eq!(update_pool(&mut p, 4_000), None);
}

#[test]
fn deposit_leaves_pool_unchanged() {
    let mut p = PoolInfo { duration: 86_400, apy: 5, last_reward_time: 10, acc_token_per_share: 3, total_supply: 77 };
    let before = p;
    deposit(&mut p, 1_000, 5, 1, 100_000);
    assert_eq!(p, before);
}

#[test]
fn lock_pending_token_moves_same_amount() {
    let scale = pow10(18);
    assert_eq!(scale, 1_000_000_000_000_000_000);
    let p = PoolInfo { duration: 0, apy: 0, last_reward_time: 0, acc_token_per_share: 3 * scale / 2, total_supply: 0 };
    let mut user = UserInfo { amount: 10, reward_debt: 4, reward_lockedup: 100, timestamp: 9 };
    let mut total = Total { total_lockedup_rewards: 1_000, total_claimed_rewards: 50 };
    lock_pending_token(&p, &mut user, &mut total);
    assert_eq!(user, UserInfo { amount: 10, reward_debt: 4, reward_lockedup: 111, timestamp: 9 });
    assert_eq!(total, Total { total_lockedup_rewards: 1_011, total_claimed_rewards: 50 });
}

#[test]
fn pow10_values() {
    assert_eq!(pow10(0), 1);
    assert_eq!(pow10(9), 1_000_000_000);
    assert_eq!(pow10(19), 10u64.pow(19));
}

#[test]
fn pool_keeps_its_parameters() {
    let mut p = pool();
    create_pools(&mut p, 8, 2, 100);
    deposit(&mut p, 10, 8, 2, 200);
    create_pools(&mut p, 8, 2, 300);
    deposit(&mut p, 10, 8, 2, 400);
    assert_eq!((p.apy, p.duration, p.last_reward_time), (8, 2 * 2_592_000, 300));
}

#[test]
fn token_reward_symmetric() {
    assert_eq!(getTokenReward(1_000, 7, 30), getTokenReward(7, 1_000, 30));
    assert_eq!(getTokenReward(123_456, 99, 365), getTokenReward(99, 123_456, 365));
}

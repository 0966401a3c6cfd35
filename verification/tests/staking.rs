use staking_program::staking::{
    destake, stake, DestakePayout, ErrorCode, StakeError, StakeInfo, TokenHolder, TokenTransfer,
    TransferAuthority,
};

fn fresh(lock_period: u64) -> StakeInfo {
    StakeInfo { stake_at_slot: 0, is_staked: false, lock_period }
}

#[test]
fn stake_moves_amount_in_base_units() {
    let mut info = fresh(10);
    let transfer = stake(&mut info, 5, 6, Some(100)).unwrap();
    assert_eq!(
        transfer,
        TokenTransfer {
            from: TokenHolder::UserTokenAccount,
            to: TokenHolder::StakeAccount,
            authority: TransferAuthority::Signer,
            amount: 5_000_000,
        }
    );
    assert_eq!(info, StakeInfo { stake_at_slot: 100, is_staked: true, lock_period: 10 });
}

#[test]
fn stake_with_no_decimals() {
    let mut info = fresh(0);
    assert_eq!(stake(&mut info, 7, 0, Some(1)).unwrap().amount, 7);
}

#[test]
fn stake_refused_while_staked() {
    let mut info = fresh(10);
    stake(&mut info, 1, 2, Some(5)).unwrap();
    let before = info;
    assert_eq!(stake(&mut info, 3, 2, Some(6)), Err(StakeError::Program(ErrorCode::IsStaked)));
    assert_eq!(info, before);
}

#[test]
fn stake_refuses_zero_amount() {
    let mut info = fresh(10);
    assert_eq!(stake(&mut info, 0, 9, Some(5)), Err(StakeError::Program(ErrorCode::NoTokens)));
    assert_eq!(info, fresh(10));
}

#[test]
fn stake_checks_before_clock() {
    let mut info = fresh(10);
    assert_eq!(stake(&mut info, 0, 9, None), Err(StakeError::Program(ErrorCode::NoTokens)));
    assert_eq!(stake(&mut info, 4, 9, None), Err(StakeError::ClockUnavailable));
    assert_eq!(info, fresh(10));
}

#[test]
fn destake_refused_when_not_staked() {
    let mut info = fresh(0);
    assert_eq!(destake(&mut info, Some(3), 6, 0), Err(StakeError::Program(ErrorCode::NotStaked)));
    assert_eq!(destake(&mut info, None, 6, 0), Err(StakeError::Program(ErrorCode::NotStaked)));
}

#[test]
fn destake_refused_before_lock_period() {
    let mut info = fresh(10);
    stake(&mut info, 1, 0, Some(100)).unwrap();
    let staked = info;
    assert_eq!(
        destake(&mut info, Some(109), 0, 1),
        Err(StakeError::Program(ErrorCode::StakingNotExpired))
    );
    assert_eq!(info, staked);
    assert_eq!(destake(&mut info, None, 0, 1), Err(StakeError::ClockUnavailable));
}

#[test]
fn destake_pays_reward_and_returns_balance() {
    let mut info = fresh(10);
    stake(&mut info, 2, 3, Some(100)).unwrap();
    let payout = destake(&mut info, Some(125), 3, 2_000).unwrap();
    assert_eq!(
        payout,
        DestakePayout {
            reward: TokenTransfer {
                from: TokenHolder::TokenVault,
                to: TokenHolder::UserTokenAccount,
                authority: TransferAuthority::TokenVault,
                amount: 25_000,
            },
            principal: TokenTransfer {
                from: TokenHolder::StakeAccount,
                to: TokenHolder::UserTokenAccount,
                authority: TransferAuthority::StakeAccount,
                amount: 2_000,
            },
        }
    );
    assert_eq!(info, StakeInfo { stake_at_slot: 125, is_staked: false, lock_period: 10 });
}

#[test]
fn destake_exactly_at_lock_end() {
    let mut info = fresh(10);
    stake(&mut info, 1, 1, Some(50)).unwrap();
    assert_eq!(destake(&mut info, Some(60), 1, 10).unwrap().reward.amount, 100);
}

#[test]
fn destake_twice_refused() {
    let mut info = fresh(0);
    stake(&mut info, 1, 0, Some(1)).unwrap();
    destake(&mut info, Some(2), 0, 1).unwrap();
    assert_eq!(destake(&mut info, Some(3), 0, 1), Err(StakeError::Program(ErrorCode::NotStaked)));
}

#[test]
fn stake_again_after_destake() {
    let mut info = fresh(0);
    stake(&mut info, 1, 0, Some(1)).unwrap();
    destake(&mut info, Some(4), 0, 1).unwrap();
    assert_eq!(stake(&mut info, 9, 0, Some(8)).unwrap().amount, 9);
    assert_eq!(info.stake_at_slot, 8);
    assert!(info.is_staked);
}

#[test]
fn reward_grows_with_time() {
    let mut early = fresh(0);
    stake(&mut early, 1, 2, Some(10)).unwrap();
    let mut late = early;
    let r1 = destake(&mut early, Some(20), 2, 100).unwrap().reward.amount;
    let r2 = destake(&mut late, Some(30), 2, 100).unwrap().reward.amount;
    assert_eq!((r1, r2), (1_000, 2_000));
    assert!(r1 <= r2);
}

#[test]
fn largest_scale_fits() {
    let mut info = fresh(0);
    assert_eq!(stake(&mut info, 1, 19, Some(1)).unwrap().amount, 10_000_000_000_000_000_000);
}

#[test]
fn error_messages() {
    assert_eq!(ErrorCode::IsStaked.message(), "Tokens are already staked.");
    assert_eq!(ErrorCode::NotStaked.message(), "Tokens not staked.");
    assert_eq!(ErrorCode::NoTokens.message(), "No Tokens to stake.");
    assert_eq!(ErrorCode::StakingNotExpired.message(), "Staking period not expired");
    assert_eq!(ErrorCode::InvalidPeriod.message(), "Invalid staking period");
    assert_eq!(staking_program::error::ErrorCode::NotAllowed.message(), "Not Allowed");
    assert_eq!(staking_program::error::ErrorCode::IsStaked.message(), "Tokens are already staked.");
}

#[test]
fn stakes_and_destakes_alternate() {
    let mut info = fresh(2);
    let mut stakes = 0u32;
    let mut destakes = 0u32;
    let mut slot = 0u64;
    for round in 0..12u64 {
        slot += 1;
        let accepted = if round % 3 == 0 {
            destake(&mut info, Some(slot), 0, 1).is_ok()
        } else {
            stake(&mut info, 1, 0, Some(slot)).is_ok()
        };
        if accepted {
            if round % 3 == 0 { destakes += 1 } else { stakes += 1 }
        }
        assert!(stakes == destakes || stakes == destakes + 1);
        assert_eq!(info.is_staked, stakes > destakes);
    }
    assert!(stakes > 1 && destakes > 1);
}

//! The staking program: a staker locks tokens in a program-owned account,
//! and after the lock period takes them back together with a reward that
//! grows with the slots that passed.
//!
//! The instructions read the cluster clock and move tokens through the token
//! program; both are done by the caller. The functions here take the clock's
//! answer as an argument and return the transfers to make, so every decision
//! an instruction takes is stated and proved here.

use vstd::prelude::*;
use crate::amounts::{pow10, pow10_spec, MAX_POW10_EXP};
use vstd::arithmetic::mul::lemma_mul_inequality;
use vstd::arithmetic::power::{pow, lemma_pow_positive};

pub use crate::states::{PoolInfo, UserInfo};

verus! {

/// A staker's record, kept at the address derived from `STAKE_INFO_SEED` and
/// the staker's key.
#[derive(Clone, Copy, Debug, PartialEq, Eq, Structural)]
pub struct StakeInfo {
    /// Slot of the last stake (or of the last destake).
    pub stake_at_slot: u64,
    /// Whether tokens are locked now.
    pub is_staked: bool,
    /// Slots that must pass after staking before a destake is accepted.
    pub lock_period: u64,
}

/// Errors of the staking program.
#[derive(Clone, Copy, Debug, PartialEq, Eq, Structural)]
pub enum ErrorCode {
    IsStaked,
    NotStaked,
    NoTokens,
    StakingNotExpired,
    InvalidPeriod,
}

impl ErrorCode {
    /// The message that goes with each error.
    pub open spec fn message_spec(self) -> Seq<char> {
        match self {
            ErrorCode::IsStaked => "Tokens are already staked."@,
            ErrorCode::NotStaked => "Tokens not staked."@,
            ErrorCode::NoTokens => "No Tokens to stake."@,
            ErrorCode::StakingNotExpired => "Staking period not expired"@,
            ErrorCode::InvalidPeriod => "Invalid staking period"@,
        }
    }

    pub fn message(&self) -> (m: &'static str)
        ensures
            m@ == self.message_spec(),
    {
        match self {
            ErrorCode::IsStaked => "Tokens are already staked.",
            ErrorCode::NotStaked => "Tokens not staked.",
            ErrorCode::NoTokens => "No Tokens to stake.",
            ErrorCode::StakingNotExpired => "Staking period not expired",
            ErrorCode::InvalidPeriod => "Invalid staking period",
        }
    }
}

/// Why an instruction of the staking program fails.
#[derive(Clone, Copy, Debug, PartialEq, Eq, Structural)]
pub enum StakeError {
    /// One of the program's own errors.
    Program(ErrorCode),
    /// The cluster clock could not be read; the caller passes on the error
    /// that the clock gave.
    ClockUnavailable,
}

/// The token accounts an instruction moves tokens between.
#[derive(Clone, Copy, Debug, PartialEq, Eq, Structural)]
pub enum TokenHolder {
    /// The staker's associated token account.
    UserTokenAccount,
    /// The program-owned account that holds one staker's locked tokens.
    StakeAccount,
    /// The program-owned vault that pays rewards.
    TokenVault,
}

/// Who authorizes a transfer: the staker who signed the instruction, or a
/// program-owned account that the program signs for with its seeds.
#[derive(Clone, Copy, Debug, PartialEq, Eq, Structural)]
pub enum TransferAuthority {
    Signer,
    TokenVault,
    StakeAccount,
}

/// A token transfer that an instruction asks the token program to make.
#[derive(Clone, Copy, Debug, PartialEq, Eq, Structural)]
pub struct TokenTransfer {
    pub from: TokenHolder,
    pub to: TokenHolder,
    pub authority: TransferAuthority,
    pub amount: u64,
}

/// The two transfers of a destake, made in this order.
#[derive(Clone, Copy, Debug, PartialEq, Eq, Structural)]
pub struct DestakePayout {
    /// The reward, from the vault to the staker.
    pub reward: TokenTransfer,
    /// Everything the stake account holds, back to the staker.
    pub principal: TokenTransfer,
}

/// `whole` tokens in base units of a mint with `decimals` decimals.
pub open spec fn base_units(whole: int, decimals: u8) -> int {
    whole * pow10_spec(decimals as nat)
}

/// The reward paid for `slots_passed` slots to a mint with `decimals`
/// decimals: one whole token per slot.
pub open spec fn reward_for(slots_passed: int, decimals: u8) -> int {
    base_units(slots_passed, decimals)
}

/// What `stake` does on a record, as a result: the new record and the
/// transfer to make, or the error.
pub open spec fn stake_outcome(info: StakeInfo, amount: u64, decimals: u8, slot: Option<u64>) -> Result<
    (StakeInfo, TokenTransfer),
    StakeError,
> {
    if info.is_staked {
        Err(StakeError::Program(ErrorCode::IsStaked))
    } else if amount == 0 {
        Err(StakeError::Program(ErrorCode::NoTokens))
    } else {
        match slot {
            None => Err(StakeError::ClockUnavailable),
            Some(now) => Ok(
                (
                    StakeInfo { stake_at_slot: now, is_staked: true, lock_period: info.lock_period },
                    TokenTransfer {
                        from: TokenHolder::UserTokenAccount,
                        to: TokenHolder::StakeAccount,
                        authority: TransferAuthority::Signer,
                        amount: base_units(amount as int, decimals) as u64,
                    },
                ),
            ),
        }
    }
}

/// The inputs on which `stake` computes its amount without overflow: where
/// it gets that far, the amount in base units fits in a `u64`.
pub open spec fn stake_in_range(info: StakeInfo, amount: u64, decimals: u8, slot: Option<u64>) -> bool {
    (!info.is_staked && amount != 0 && slot is Some) ==> {
        &&& decimals <= MAX_POW10_EXP
        &&& base_units(amount as int, decimals) <= u64::MAX
    }
}

/// Stakes `amount` whole tokens of a mint with `decimals` decimals.
///
/// Refused with `IsStaked` while tokens are locked, then with `NoTokens` for
/// a zero amount; `slot` is the clock's answer, `None` when it could not be
/// read. On success the record is marked staked at `slot` and the staker's
/// tokens, in base units, go to the stake account. On failure the record is
/// left as it was.
pub fn stake(info: &mut StakeInfo, amount: u64, decimals: u8, slot: Option<u64>) -> (res: Result<
    TokenTransfer,
    StakeError,
>)
    requires
        stake_in_range(*old(info), amount, decimals, slot),
    ensures
        match stake_outcome(*old(info), amount, decimals, slot) {
            Ok((next, transfer)) => res == Ok::<TokenTransfer, StakeError>(transfer) && *final(info)
                == next,
            Err(e) => res == Err::<TokenTransfer, StakeError>(e) && *final(info) == *old(info),
        },
{
    if info.is_staked {
        return Err(StakeError::Program(ErrorCode::IsStaked));
    }
    if amount == 0 {
        return Err(StakeError::Program(ErrorCode::NoTokens));
    }
    let now = match slot {
        Some(now) => now,
        None => {
            return Err(StakeError::ClockUnavailable);
        },
    };
    info.stake_at_slot = now;
    info.is_staked = true;

    let stake_amount = amount.checked_mul(pow10(decimals as u32)).unwrap();
    Ok(
        TokenTransfer {
            from: TokenHolder::UserTokenAccount,
            to: TokenHolder::StakeAccount,
            authority: TransferAuthority::Signer,
            amount: stake_amount,
        },
    )
}

/// What `destake` does on a record, as a result: the new record and the two
/// transfers to make, or the error.
pub open spec fn destake_outcome(
    info: StakeInfo,
    slot: Option<u64>,
    decimals: u8,
    stake_balance: u64,
) -> Result<(StakeInfo, DestakePayout), StakeError> {
    if !info.is_staked {
        Err(StakeError::Program(ErrorCode::NotStaked))
    } else {
        match slot {
            None => Err(StakeError::ClockUnavailable),
            Some(now) => {
                let slots_passed = now - info.stake_at_slot;
                if slots_passed < info.lock_period {
                    Err(StakeError::Program(ErrorCode::StakingNotExpired))
                } else {
                    Ok(
                        (
                            StakeInfo {
                                stake_at_slot: now,
                                is_staked: false,
                                lock_period: info.lock_period,
                            },
                            DestakePayout {
                                reward: TokenTransfer {
                                    from: TokenHolder::TokenVault,
                                    to: TokenHolder::UserTokenAccount,
                                    authority: TransferAuthority::TokenVault,
                                    amount: reward_for(slots_passed, decimals) as u64,
                                },
                                principal: TokenTransfer {
                                    from: TokenHolder::StakeAccount,
                                    to: TokenHolder::UserTokenAccount,
                                    authority: TransferAuthority::StakeAccount,
                                    amount: stake_balance,
                                },
                            },
                        ),
                    )
                }
            },
        }
    }
}

/// The inputs on which `destake` computes without overflow: the clock has
/// not gone back before the stake, and where the lock has expired the
/// reward in base units fits in a `u64`.
pub open spec fn destake_in_range(info: StakeInfo, slot: Option<u64>, decimals: u8) -> bool {
    (info.is_staked && slot is Some) ==> {
        let now = slot->Some_0;
        &&& info.stake_at_slot <= now
        &&& now - info.stake_at_slot >= info.lock_period ==> {
            &&& decimals <= MAX_POW10_EXP
            &&& reward_for(now - info.stake_at_slot, decimals) <= u64::MAX
        }
    }
}

/// Ends a stake.
///
/// Refused with `NotStaked` when nothing is locked; `slot` is the clock's
/// answer, `None` when it could not be read; refused with
/// `StakingNotExpired` before the lock period has passed. On success the
/// vault pays one token (in base units) per slot passed, the stake account's
/// whole balance `stake_balance` goes back to the staker, and the record is
/// marked unstaked at `slot`. On failure the record is left as it was.
pub fn destake(info: &mut StakeInfo, slot: Option<u64>, decimals: u8, stake_balance: u64) -> (res:
    Result<DestakePayout, StakeError>)
    requires
        destake_in_range(*old(info), slot, decimals),
    ensures
        match destake_outcome(*old(info), slot, decimals, stake_balance) {
            Ok((next, payout)) => res == Ok::<DestakePayout, StakeError>(payout) && *final(info)
                == next,
            Err(e) => res == Err::<DestakePayout, StakeError>(e) && *final(info) == *old(info),
        },
{
    if !info.is_staked {
        return Err(StakeError::Program(ErrorCode::NotStaked));
    }
    let now = match slot {
        Some(now) => now,
        None => {
            return Err(StakeError::ClockUnavailable);
        },
    };
    let slots_passed = now - info.stake_at_slot;
    if slots_passed < info.lock_period {
        return Err(StakeError::Program(ErrorCode::StakingNotExpired));
    }
    let reward = slots_passed.checked_mul(pow10(decimals as u32)).unwrap();

    info.is_staked = false;
    info.stake_at_slot = now;

    Ok(
        DestakePayout {
            reward: TokenTransfer {
                from: TokenHolder::TokenVault,
                to: TokenHolder::UserTokenAccount,
                authority: TransferAuthority::TokenVault,
                amount: reward,
            },
            principal: TokenTransfer {
                from: TokenHolder::StakeAccount,
                to: TokenHolder::UserTokenAccount,
                authority: TransferAuthority::StakeAccount,
                amount: stake_balance,
            },
        },
    )
}

/// Once a stake is accepted, every further stake is refused with `IsStaked`
/// until the tokens are taken back.
pub proof fn lemma_stake_refused_while_staked(
    info: StakeInfo,
    amount: u64,
    decimals: u8,
    slot: Option<u64>,
    next_amount: u64,
    next_decimals: u8,
    next_slot: Option<u64>,
)
    ensures
        stake_outcome(info, amount, decimals, slot) matches Ok((next, _)) ==> stake_outcome(
            next,
            next_amount,
            next_decimals,
            next_slot,
        ) == Err::<(StakeInfo, TokenTransfer), StakeError>(
            StakeError::Program(ErrorCode::IsStaked),
        ),
{
}

/// Once a destake is accepted, every further destake is refused with
/// `NotStaked` until tokens are staked again.
pub proof fn lemma_destake_refused_when_unstaked(
    info: StakeInfo,
    slot: Option<u64>,
    decimals: u8,
    stake_balance: u64,
    next_slot: Option<u64>,
    next_decimals: u8,
    next_balance: u64,
)
    ensures
        destake_outcome(info, slot, decimals, stake_balance) matches Ok((next, _))
            ==> destake_outcome(next, next_slot, next_decimals, next_balance) == Err::<
            (StakeInfo, DestakePayout),
            StakeError,
        >(StakeError::Program(ErrorCode::NotStaked)),
{
}

/// A stake accepted at slot `at` is given back at any slot `later` at least
/// the lock period after it: the staker gets the stake account's whole
/// balance and one whole token per slot passed, and the record says
/// unstaked at `later`.
pub proof fn lemma_destake_after_lock_period(
    info: StakeInfo,
    amount: u64,
    decimals: u8,
    at: u64,
    later: u64,
    stake_balance: u64,
)
    requires
        stake_outcome(info, amount, decimals, Some(at)) is Ok,
        at <= later,
        later - at >= info.lock_period,
        decimals <= MAX_POW10_EXP,
        reward_for(later - at, decimals) <= u64::MAX,
    ensures
        ({
            let staked = stake_outcome(info, amount, decimals, Some(at))->Ok_0.0;
            &&& destake_in_range(staked, Some(later), decimals)
            &&& destake_outcome(staked, Some(later), decimals, stake_balance) matches Ok(
                (after, payout),
            ) && after == (StakeInfo {
                stake_at_slot: later,
                is_staked: false,
                lock_period: info.lock_period,
            }) && payout.reward.amount == reward_for(later - at, decimals)
                && payout.reward.to == TokenHolder::UserTokenAccount && payout.principal.amount
                == stake_balance && payout.principal.from == TokenHolder::StakeAccount
                && payout.principal.to == TokenHolder::UserTokenAccount
        }),
{
    lemma_reward_grows_with_time(0, (later - at) as nat, decimals);
}

/// A destake asked for before the lock period has passed since the stake
/// is refused with `StakingNotExpired`.
pub proof fn lemma_destake_refused_before_lock_period(
    info: StakeInfo,
    amount: u64,
    decimals: u8,
    at: u64,
    later: u64,
    destake_decimals: u8,
    stake_balance: u64,
)
    requires
        stake_outcome(info, amount, decimals, Some(at)) is Ok,
        at <= later,
        later - at < info.lock_period,
    ensures
        destake_outcome(
            stake_outcome(info, amount, decimals, Some(at))->Ok_0.0,
            Some(later),
            destake_decimals,
            stake_balance,
        ) == Err::<(StakeInfo, DestakePayout), StakeError>(
            StakeError::Program(ErrorCode::StakingNotExpired),
        ),
{
}

/// After a destake, the staker may stake again: any nonzero amount is
/// accepted once the clock can be read.
pub proof fn lemma_stake_again_after_destake(
    info: StakeInfo,
    slot: Option<u64>,
    decimals: u8,
    stake_balance: u64,
    amount: u64,
    next_decimals: u8,
    now: u64,
)
    requires
        destake_outcome(info, slot, decimals, stake_balance) is Ok,
        amount != 0,
    ensures
        stake_outcome(
            destake_outcome(info, slot, decimals, stake_balance)->Ok_0.0,
            amount,
            next_decimals,
            Some(now),
        ) is Ok,
{
}

/// The later a stake is ended, the larger the reward: it never shrinks as
/// slots pass.
pub proof fn lemma_reward_grows_with_time(slots: nat, more_slots: nat, decimals: u8)
    requires
        slots <= more_slots,
    ensures
        reward_for(slots as int, decimals) <= reward_for(more_slots as int, decimals),
{
    vstd::arithmetic::power::lemma_pow_positive(10, decimals as nat);
    lemma_mul_inequality(slots as int, more_slots as int, pow10_spec(decimals as nat));
}

/// One instruction a staker sends, with the clock's answer and the inputs
/// the instruction reads.
pub enum StakeCall {
    Stake { amount: u64, decimals: u8, slot: Option<u64> },
    Destake { slot: Option<u64>, decimals: u8, stake_balance: u64 },
}

/// Whether a call is a stake that is accepted on `info`.
pub open spec fn accepted_stake(info: StakeInfo, call: StakeCall) -> bool {
    match call {
        StakeCall::Stake { amount, decimals, slot } => stake_outcome(
            info,
            amount,
            decimals,
            slot,
        ) is Ok,
        StakeCall::Destake { .. } => false,
    }
}

/// Whether a call is a destake that is accepted on `info`.
pub open spec fn accepted_destake(info: StakeInfo, call: StakeCall) -> bool {
    match call {
        StakeCall::Stake { .. } => false,
        StakeCall::Destake { slot, decimals, stake_balance } => destake_outcome(
            info,
            slot,
            decimals,
            stake_balance,
        ) is Ok,
    }
}

/// The record after one call: the new record where the call is accepted,
/// the same record where it is refused.
pub open spec fn after_call(info: StakeInfo, call: StakeCall) -> StakeInfo {
    match call {
        StakeCall::Stake { amount, decimals, slot } => match stake_outcome(
            info,
            amount,
            decimals,
            slot,
        ) {
            Ok((next, _)) => next,
            Err(_) => info,
        },
        StakeCall::Destake { slot, decimals, stake_balance } => match destake_outcome(
            info,
            slot,
            decimals,
            stake_balance,
        ) {
            Ok((next, _)) => next,
            Err(_) => info,
        },
    }
}

/// The record after a sequence of calls, made in order.
pub open spec fn after_calls(info: StakeInfo, calls: Seq<StakeCall>) -> StakeInfo
    decreases calls.len(),
{
    if calls.len() == 0 {
        info
    } else {
        after_call(after_calls(info, calls.drop_last()), calls.last())
    }
}

/// How many calls of a sequence are accepted stakes.
pub open spec fn accepted_stakes(info: StakeInfo, calls: Seq<StakeCall>) -> nat
    decreases calls.len(),
{
    if calls.len() == 0 {
        0
    } else {
        accepted_stakes(info, calls.drop_last()) + if accepted_stake(
            after_calls(info, calls.drop_last()),
            calls.last(),
        ) {
            1nat
        } else {
            0nat
        }
    }
}

/// How many calls of a sequence are accepted destakes.
pub open spec fn accepted_destakes(info: StakeInfo, calls: Seq<StakeCall>) -> nat
    decreases calls.len(),
{
    if calls.len() == 0 {
        0
    } else {
        accepted_destakes(info, calls.drop_last()) + if accepted_destake(
            after_calls(info, calls.drop_last()),
            calls.last(),
        ) {
            1nat
        } else {
            0nat
        }
    }
}

/// Over any sequence of calls on an unstaked record, accepted stakes and
/// accepted destakes alternate, starting with a stake: after every prefix
/// there are as many of each, or one stake more, and the record is staked
/// exactly when there is one stake more. While it is, every stake is
/// refused with `IsStaked`; while it is not, every destake is refused with
/// `NotStaked`.
pub proof fn lemma_stakes_and_destakes_alternate(
    info: StakeInfo,
    calls: Seq<StakeCall>,
    amount: u64,
    decimals: u8,
    slot: Option<u64>,
    stake_balance: u64,
)
    requires
        !info.is_staked,
    ensures
        ({
            let stakes = accepted_stakes(info, calls);
            let destakes = accepted_destakes(info, calls);
            let after = after_calls(info, calls);
            &&& stakes == destakes || stakes == destakes + 1
            &&& after.is_staked == (stakes > destakes)
            &&& after.is_staked ==> stake_outcome(after, amount, decimals, slot) == Err::<
                (StakeInfo, TokenTransfer),
                StakeError,
            >(StakeError::Program(ErrorCode::IsStaked))
            &&& !after.is_staked ==> destake_outcome(after, slot, decimals, stake_balance) == Err::<
                (StakeInfo, DestakePayout),
                StakeError,
            >(StakeError::Program(ErrorCode::NotStaked))
        }),
    decreases calls.len(),
{
    if calls.len() > 0 {
        lemma_stakes_and_destakes_alternate(
            info,
            calls.drop_last(),
            amount,
            decimals,
            slot,
            stake_balance,
        );
    }
}

/// `whole * 10^decimals` is never negative for a whole amount that is not.
proof fn lemma_scaled_nonnegative(whole: int, decimals: u8)
    requires
        whole >= 0,
    ensures
        whole * pow(10, decimals as nat) >= 0,
{
    lemma_pow_positive(10, decimals as nat);
    lemma_mul_inequality(0, whole, pow(10, decimals as nat));
}

/// A stake is accepted exactly when nothing is locked, the amount is not
/// zero and the clock could be read. Then it moves `amount * 10^decimals`
/// base units, the whole amount, from the staker's token account to the
/// stake account on the staker's signature, and records a stake at the
/// clock's slot with the lock period kept.
pub proof fn lemma_stake_moves_whole_amount(
    info: StakeInfo,
    amount: u64,
    decimals: u8,
    slot: Option<u64>,
)
    requires
        decimals <= MAX_POW10_EXP,
        amount * pow(10, decimals as nat) <= u64::MAX,
    ensures
        stake_outcome(info, amount, decimals, slot) is Ok <==> (!info.is_staked && amount != 0
            && slot is Some),
        stake_outcome(info, amount, decimals, slot) matches Ok((next, transfer)) ==> {
            &&& transfer.amount == amount * pow(10, decimals as nat)
            &&& transfer.from == TokenHolder::UserTokenAccount
            &&& transfer.to == TokenHolder::StakeAccount
            &&& transfer.authority == TransferAuthority::Signer
            &&& next.stake_at_slot == slot->Some_0
            &&& next.is_staked
            &&& next.lock_period == info.lock_period
        },
{
    lemma_scaled_nonnegative(amount as int, decimals);
}

/// Every accepted destake pays the reward out of the program's vault on
/// the vault's authority, and gives the stake account's whole balance back
/// on the stake account's authority, both into the staker's token account.
pub proof fn lemma_destake_routes(
    info: StakeInfo,
    slot: Option<u64>,
    decimals: u8,
    stake_balance: u64,
)
    ensures
        destake_outcome(info, slot, decimals, stake_balance) matches Ok((_, payout)) ==> {
            &&& payout.reward.from == TokenHolder::TokenVault
            &&& payout.reward.authority == TransferAuthority::TokenVault
            &&& payout.reward.to == TokenHolder::UserTokenAccount
            &&& payout.principal.from == TokenHolder::StakeAccount
            &&& payout.principal.authority == TransferAuthority::StakeAccount
            &&& payout.principal.to == TokenHolder::UserTokenAccount
            &&& payout.principal.amount == stake_balance
        },
{
}

/// A destake is accepted exactly when tokens are locked, the clock could be
/// read and at least the lock period has passed since the stake. Then the
/// reward is `(now - stake_at_slot) * 10^decimals` base units, one whole
/// token per slot, and the record says unstaked at `now`.
pub proof fn lemma_destake_pays_per_slot(
    info: StakeInfo,
    now: u64,
    decimals: u8,
    stake_balance: u64,
)
    requires
        info.stake_at_slot <= now,
        decimals <= MAX_POW10_EXP,
        (now - info.stake_at_slot) * pow(10, decimals as nat) <= u64::MAX,
    ensures
        destake_outcome(info, Some(now), decimals, stake_balance) is Ok <==> (info.is_staked && now
            - info.stake_at_slot >= info.lock_period),
        destake_outcome(info, Some(now), decimals, stake_balance) matches Ok((next, payout)) ==> {
            &&& payout.reward.amount == (now - info.stake_at_slot) * pow(10, decimals as nat)
            &&& next.stake_at_slot == now
            &&& !next.is_staked
            &&& next.lock_period == info.lock_period
        },
{
    lemma_scaled_nonnegative(now - info.stake_at_slot, decimals);
}

} // verus!

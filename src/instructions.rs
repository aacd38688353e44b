use vstd::prelude::*;

use crate::accounts::{accrued, opened, times_ordered, points_since, Collection, StakeState, TokenAccount, UserInfo, UserStakeInfo};
use crate::address::{same_address, Address};
use crate::error::ErrorCode;

verus! {

/// Accounts of the stake instruction.
#[derive(Clone, Copy, Debug, PartialEq, Eq)]
pub struct Stake {
    /// The owner's point record; all zero when it did not exist yet.
    pub user_info: UserInfo,
    /// The (owner, mint) stake record; all zero when it did not exist yet.
    pub staking_info: UserStakeInfo,
    /// The owner, who signs the instruction.
    pub initializer: Address,
    /// The stake record's own address, which is the vault's authority.
    pub staking_info_key: Address,
    /// The owner's token account, which must hold the token.
    pub user_nft_account: TokenAccount,
    /// The vault that receives the token.
    pub pda_nft_account: TokenAccount,
    /// The collection that the token's metadata names.
    pub nft_collection: Option<Collection>,
    /// The token's mint.
    pub mint: Address,
}

/// Accounts of the redeem instruction.
#[derive(Clone, Copy, Debug, PartialEq, Eq)]
pub struct Redeem {
    pub user_info: UserInfo,
    pub staking_info: UserStakeInfo,
    /// The owner, who signs the instruction.
    pub payer: Address,
    /// The stake record's own address, which is the vault's authority.
    pub staking_info_key: Address,
    /// The vault holding the token.
    pub pda_nft_account: TokenAccount,
    pub mint: Address,
}

/// Accounts of the unstake instruction.
#[derive(Clone, Copy, Debug, PartialEq, Eq)]
pub struct Unstake {
    pub user_info: UserInfo,
    pub staking_info: UserStakeInfo,
    /// The owner, who signs the instruction.
    pub initializer: Address,
    /// The stake record's own address, which is the vault's authority.
    pub staking_info_key: Address,
    /// The owner's token account, which receives the token back.
    pub user_nft_account: TokenAccount,
    /// The vault holding the token.
    pub pda_nft_account: TokenAccount,
    pub mint: Address,
}

/// The owner holds exactly the one token, and the vault belongs to the
/// stake record and is for the same mint.
pub open spec fn stake_accounts_ok(c: Stake) -> bool {
    &&& same_address(c.user_nft_account.owner, c.initializer)
    &&& c.user_nft_account.amount == 1
    &&& same_address(c.user_nft_account.mint, c.mint)
    &&& same_address(c.pda_nft_account.owner, c.staking_info_key)
    &&& same_address(c.pda_nft_account.mint, c.mint)
}

/// What the stake instruction returns.
pub open spec fn stake_outcome(c: Stake) -> Result<(), ErrorCode> {
    if !stake_accounts_ok(c) {
        Err(ErrorCode::ConstraintViolation)
    } else if c.nft_collection is None {
        Err(ErrorCode::InvalidNftCollection)
    } else if c.pda_nft_account.amount == u64::MAX || opened(c.user_info).active_stake == u16::MAX {
        Err(ErrorCode::ArithmeticOverflow)
    } else {
        Ok(())
    }
}

/// The accounts after a successful stake at time `now`: the token has moved
/// to the vault, the record is (re)started, and one more stake is active.
pub open spec fn staked(c: Stake, now: u64) -> Stake {
    Stake {
        user_info: UserInfo {
            active_stake: (opened(c.user_info).active_stake + 1) as u16,
            ..opened(c.user_info)
        },
        staking_info: UserStakeInfo {
            token_account: c.user_nft_account.key,
            stake_start_time: now,
            last_stake_redeem: now,
            stake_state: StakeState::Stake,
        },
        user_nft_account: TokenAccount { amount: 0, ..c.user_nft_account },
        pda_nft_account: TokenAccount {
            amount: (c.pda_nft_account.amount + 1) as u64,
            ..c.pda_nft_account
        },
        ..c
    }
}

/// The vault belongs to the stake record, is for the mint, and holds the token.
pub open spec fn vault_holds(pda: TokenAccount, authority: Address, mint: Address) -> bool {
    &&& same_address(pda.owner, authority)
    &&& same_address(pda.mint, mint)
    &&& pda.amount == 1
}

/// What the redeem instruction returns at time `now`.
pub open spec fn redeem_outcome(c: Redeem, now: u64) -> Result<(), ErrorCode> {
    if !(vault_holds(c.pda_nft_account, c.staking_info_key, c.mint)
        && c.staking_info.stake_state == StakeState::Stake) {
        Err(ErrorCode::ConstraintViolation)
    } else if now < c.staking_info.last_stake_redeem {
        Err(ErrorCode::ClockRegression)
    } else if c.user_info.point_balance + accrued(c.staking_info.last_stake_redeem, now) > u64::MAX {
        Err(ErrorCode::ArithmeticOverflow)
    } else {
        Ok(())
    }
}

/// The accounts after a successful redeem at `now`: the whole hours since
/// the last redemption are credited, and the last redemption becomes `now`.
pub open spec fn redeemed(c: Redeem, now: u64) -> Redeem {
    Redeem {
        user_info: UserInfo {
            point_balance: (c.user_info.point_balance + accrued(
                c.staking_info.last_stake_redeem,
                now,
            )) as u64,
            ..c.user_info
        },
        staking_info: UserStakeInfo { last_stake_redeem: now, ..c.staking_info },
        ..c
    }
}

/// The record is staked with this token account, the owner's account is
/// empty, and the vault holds the token.
pub open spec fn unstake_accounts_ok(c: Unstake) -> bool {
    &&& same_address(c.user_nft_account.key, c.staking_info.token_account)
    &&& same_address(c.user_nft_account.owner, c.initializer)
    &&& same_address(c.user_nft_account.mint, c.mint)
    &&& c.user_nft_account.amount == 0
    &&& vault_holds(c.pda_nft_account, c.staking_info_key, c.mint)
    &&& c.staking_info.stake_state == StakeState::Stake
}

/// What the unstake instruction returns at time `now`.
pub open spec fn unstake_outcome(c: Unstake, now: u64) -> Result<(), ErrorCode> {
    if !unstake_accounts_ok(c) {
        Err(ErrorCode::ConstraintViolation)
    } else if now < c.staking_info.last_stake_redeem {
        Err(ErrorCode::ClockRegression)
    } else if c.user_info.point_balance + accrued(c.staking_info.last_stake_redeem, now) > u64::MAX
        || c.user_info.active_stake == 0 {
        Err(ErrorCode::ArithmeticOverflow)
    } else {
        Ok(())
    }
}

/// The accounts after a successful unstake at `now`: the token is back with
/// the owner, the last hours are credited, the record is closed and one
/// stake fewer is active.
pub open spec fn unstaked(c: Unstake, now: u64) -> Unstake {
    Unstake {
        user_info: UserInfo {
            point_balance: (c.user_info.point_balance + accrued(
                c.staking_info.last_stake_redeem,
                now,
            )) as u64,
            active_stake: (c.user_info.active_stake - 1) as u16,
            ..c.user_info
        },
        staking_info: UserStakeInfo {
            last_stake_redeem: now,
            stake_state: StakeState::Unstake,
            ..c.staking_info
        },
        user_nft_account: TokenAccount { amount: 1, ..c.user_nft_account },
        pda_nft_account: TokenAccount { amount: 0, ..c.pda_nft_account },
        ..c
    }
}

fn is_staked(s: StakeState) -> (r: bool)
    ensures
        r == (s == StakeState::Stake),
{
    match s {
        StakeState::Stake => true,
        StakeState::Unstake => false,
    }
}

/// Escrows the token in the vault at time `now` and starts its stake record,
/// creating the owner's point record on first use. The token's metadata must
/// name a collection; which collection it is, and whether it is verified, is
/// not checked.
pub fn stake(ctx: &mut Stake, now: u64) -> (r: Result<(), ErrorCode>)
    ensures
        r == stake_outcome(*old(ctx)),
        r is Ok ==> *final(ctx) == staked(*old(ctx), now),
        r is Ok ==> times_ordered(final(ctx).staking_info),
        r is Err ==> *final(ctx) == *old(ctx),
        old(ctx).user_nft_account.amount != 1 ==> r == Err::<(), ErrorCode>(ErrorCode::ConstraintViolation),
{
    if !(ctx.user_nft_account.owner.same(&ctx.initializer) && ctx.user_nft_account.amount == 1
        && ctx.user_nft_account.mint.same(&ctx.mint) && ctx.pda_nft_account.owner.same(
        &ctx.staking_info_key,
    ) && ctx.pda_nft_account.mint.same(&ctx.mint)) {
        return Err(ErrorCode::ConstraintViolation);
    }
    if ctx.nft_collection.is_none() {
        return Err(ErrorCode::InvalidNftCollection);
    }
    let active: u16 = if ctx.user_info.is_initialized {
        ctx.user_info.active_stake
    } else {
        0
    };
    if ctx.pda_nft_account.amount == u64::MAX || active == u16::MAX {
        return Err(ErrorCode::ArithmeticOverflow);
    }
    if !ctx.user_info.is_initialized {
        ctx.user_info.is_initialized = true;
        ctx.user_info.point_balance = 0;
        ctx.user_info.active_stake = 0;
    }
    ctx.user_nft_account.amount = 0;
    ctx.pda_nft_account.amount = ctx.pda_nft_account.amount + 1;
    ctx.staking_info.token_account = ctx.user_nft_account.key;
    ctx.staking_info.stake_start_time = now;
    ctx.staking_info.last_stake_redeem = now;
    ctx.staking_info.stake_state = StakeState::Stake;
    ctx.user_info.active_stake = active + 1;
    Ok(())
}

/// Credits the whole hours since the last redemption and moves the last
/// redemption to `now`; a remainder under an hour is dropped.
pub fn redeem(ctx: &mut Redeem, now: u64) -> (r: Result<(), ErrorCode>)
    ensures
        r == redeem_outcome(*old(ctx), now),
        r is Ok ==> *final(ctx) == redeemed(*old(ctx), now),
        times_ordered(old(ctx).staking_info) ==> times_ordered(final(ctx).staking_info),
        r is Err ==> *final(ctx) == *old(ctx),
{
    if !(ctx.pda_nft_account.owner.same(&ctx.staking_info_key) && ctx.pda_nft_account.mint.same(
        &ctx.mint,
    ) && ctx.pda_nft_account.amount == 1 && is_staked(ctx.staking_info.stake_state)) {
        return Err(ErrorCode::ConstraintViolation);
    }
    if now < ctx.staking_info.last_stake_redeem {
        return Err(ErrorCode::ClockRegression);
    }
    let amount = points_since(ctx.staking_info.last_stake_redeem, now);
    match ctx.user_info.point_balance.checked_add(amount) {
        None => Err(ErrorCode::ArithmeticOverflow),
        Some(balance) => {
            ctx.user_info.point_balance = balance;
            ctx.staking_info.last_stake_redeem = now;
            Ok(())
        },
    }
}

/// Returns the token to the owner, credits the last whole hours, marks the
/// record unstaked and counts one stake fewer.
pub fn unstake(ctx: &mut Unstake, now: u64) -> (r: Result<(), ErrorCode>)
    ensures
        r == unstake_outcome(*old(ctx), now),
        r is Ok ==> *final(ctx) == unstaked(*old(ctx), now),
        times_ordered(old(ctx).staking_info) ==> times_ordered(final(ctx).staking_info),
        r is Err ==> *final(ctx) == *old(ctx),
        old(ctx).user_nft_account.amount != 0 ==> r == Err::<(), ErrorCode>(ErrorCode::ConstraintViolation),
{
    if !(ctx.user_nft_account.key.same(&ctx.staking_info.token_account)
        && ctx.user_nft_account.owner.same(&ctx.initializer) && ctx.user_nft_account.mint.same(
        &ctx.mint,
    ) && ctx.user_nft_account.amount == 0 && ctx.pda_nft_account.owner.same(&ctx.staking_info_key)
        && ctx.pda_nft_account.mint.same(&ctx.mint) && ctx.pda_nft_account.amount == 1
        && is_staked(ctx.staking_info.stake_state)) {
        return Err(ErrorCode::ConstraintViolation);
    }
    if now < ctx.staking_info.last_stake_redeem {
        return Err(ErrorCode::ClockRegression);
    }
    let amount = points_since(ctx.staking_info.last_stake_redeem, now);
    let balance = match ctx.user_info.point_balance.checked_add(amount) {
        None => {
            return Err(ErrorCode::ArithmeticOverflow);
        },
        Some(b) => b,
    };
    let active = match ctx.user_info.active_stake.checked_sub(1) {
        None => {
            return Err(ErrorCode::ArithmeticOverflow);
        },
        Some(a) => a,
    };
    ctx.user_nft_account.amount = 1;
    ctx.pda_nft_account.amount = 0;
    ctx.user_info.point_balance = balance;
    ctx.staking_info.last_stake_redeem = now;
    ctx.staking_info.stake_state = StakeState::Unstake;
    ctx.user_info.active_stake = active;
    Ok(())
}

} // verus!

use vstd::prelude::*;

use crate::address::Address;

verus! {

/// Seconds of stake that earn one point.
pub const HOUR: u64 = 3600;

const DISCRIMINATOR: usize = 8;
const PUBKEY: usize = 32;
const BOOL: usize = 1;
const U64: usize = 8;
const U16: usize = 2;
const STATE: usize = 1;

/// A token account: which mint it holds, who owns it, and how many units.
#[derive(Clone, Copy, Debug, PartialEq, Eq)]
pub struct TokenAccount {
    pub key: Address,
    pub owner: Address,
    pub mint: Address,
    pub amount: u64,
}

/// The collection named by a token's metadata.
#[derive(Clone, Copy, Debug, PartialEq, Eq)]
pub struct Collection {
    pub key: Address,
    pub verified: bool,
}

/// Per-owner record: points earned so far and the number of tokens staked now.
/// A freshly created account is all zero, `is_initialized` included.
#[derive(Clone, Copy, Debug, PartialEq, Eq)]
pub struct UserInfo {
    pub is_initialized: bool,
    pub point_balance: u64,
    pub active_stake: u16,
}

/// Whether a stake record's token sits in its vault.
#[derive(Clone, Copy, Debug, PartialEq, Eq, Structural)]
pub enum StakeState {
    Stake,
    Unstake,
}

/// Per (owner, mint) record. A freshly created record is all zero, which
/// reads as state `Stake` with both times 0. After an unstake the record
/// stays, in state `Unstake`, and is reused by the next stake of that token.
#[derive(Clone, Copy, Debug, PartialEq, Eq)]
pub struct UserStakeInfo {
    pub token_account: Address,
    pub stake_start_time: u64,
    pub last_stake_redeem: u64,
    pub stake_state: StakeState,
}

/// A stake record never has its last redemption before its start.
pub open spec fn times_ordered(s: UserStakeInfo) -> bool {
    s.stake_start_time <= s.last_stake_redeem
}

/// The user record as the stake instruction sees it: unchanged when it was
/// initialized before, zero-initialized otherwise.
pub open spec fn opened(u: UserInfo) -> UserInfo {
    if u.is_initialized {
        u
    } else {
        UserInfo { is_initialized: true, point_balance: 0, active_stake: 0 }
    }
}

/// Whole hours between the last redemption and `now`; the remainder is dropped.
pub open spec fn accrued(last: u64, now: u64) -> int {
    (now - last) / (HOUR as int)
}

impl UserInfo {
    /// Bytes of storage the account takes: discriminator, flag, balance, count.
    pub fn len() -> (r: usize)
        ensures
            r == 19,
    {
        DISCRIMINATOR + BOOL + U64 + U16
    }
}

impl UserStakeInfo {
    /// Bytes of storage the record takes: discriminator, token account,
    /// two times and the state.
    pub fn len() -> (r: usize)
        ensures
            r == 57,
    {
        DISCRIMINATOR + PUBKEY + U64 + U64 + STATE
    }
}

/// Points for the time since `last`, whole hours only.
pub fn points_since(last: u64, now: u64) -> (r: u64)
    requires
        last <= now,
    ensures
        r == accrued(last, now),
{
    (now - last) / HOUR
}

} // verus!

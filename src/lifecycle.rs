use vstd::prelude::*;

use crate::accounts::{accrued, opened, StakeState, HOUR};
use crate::error::ErrorCode;
use crate::instructions::{
    redeem_outcome, redeemed, stake_outcome, staked, unstake_outcome, unstaked, vault_holds, Redeem,
    Stake, Unstake,
};

verus! {

/// The redeem accounts that follow a stake: the same records, vault and mint.
pub open spec fn redeem_accounts(s: Stake) -> Redeem {
    Redeem {
        user_info: s.user_info,
        staking_info: s.staking_info,
        payer: s.initializer,
        staking_info_key: s.staking_info_key,
        pda_nft_account: s.pda_nft_account,
        mint: s.mint,
    }
}

/// The unstake accounts after a stake `s` and the redeems that led to `r`:
/// the records and vault as `r` left them, the owner's account as `s` left it.
pub open spec fn unstake_accounts(s: Stake, r: Redeem) -> Unstake {
    Unstake {
        user_info: r.user_info,
        staking_info: r.staking_info,
        initializer: s.initializer,
        staking_info_key: s.staking_info_key,
        user_nft_account: s.user_nft_account,
        pda_nft_account: r.pda_nft_account,
        mint: s.mint,
    }
}

/// Redeem at each of `times` in turn; a refused redeem changes nothing.
pub open spec fn redeem_all(c: Redeem, times: Seq<u64>) -> Redeem
    decreases times.len(),
{
    if times.len() == 0 {
        c
    } else {
        let next = if redeem_outcome(c, times[0]) is Ok {
            redeemed(c, times[0])
        } else {
            c
        };
        redeem_all(next, times.drop_first())
    }
}

/// Redeems change only the point balance and the last redemption time.
proof fn lemma_redeem_all_frame(c: Redeem, times: Seq<u64>)
    ensures
        redeem_all(c, times).user_info.is_initialized == c.user_info.is_initialized,
        redeem_all(c, times).user_info.active_stake == c.user_info.active_stake,
        redeem_all(c, times).staking_info.token_account == c.staking_info.token_account,
        redeem_all(c, times).staking_info.stake_start_time == c.staking_info.stake_start_time,
        redeem_all(c, times).staking_info.stake_state == c.staking_info.stake_state,
        redeem_all(c, times).payer == c.payer,
        redeem_all(c, times).staking_info_key == c.staking_info_key,
        redeem_all(c, times).pda_nft_account == c.pda_nft_account,
        redeem_all(c, times).mint == c.mint,
    decreases times.len(),
{
    if times.len() > 0 {
        let next = if redeem_outcome(c, times[0]) is Ok {
            redeemed(c, times[0])
        } else {
            c
        };
        lemma_redeem_all_frame(next, times.drop_first());
    }
}

/// For an owner with no active stake, across stake, any run of redeems, and
/// unstake of one token: the active count is 1 after the stake and through
/// every redeem, and 0 once the unstake succeeds. The unstake succeeds at any
/// time no earlier than the last redemption, unless the point balance would
/// overflow.
pub proof fn lemma_active_stake_lifecycle(s: Stake, t0: u64, times: Seq<u64>, t1: u64)
    requires
        opened(s.user_info).active_stake == 0,
        s.pda_nft_account.amount == 0,
        stake_outcome(s) is Ok,
    ensures
        staked(s, t0).user_info.active_stake == 1,
        forall|k: int|
            0 <= k <= times.len() ==> #[trigger] redeem_all(
                redeem_accounts(staked(s, t0)),
                times.take(k),
            ).user_info.active_stake == 1,
        ({
            let r = redeem_all(redeem_accounts(staked(s, t0)), times);
            let u = unstake_accounts(staked(s, t0), r);
            &&& unstake_outcome(u, t1) is Ok ==> unstaked(u, t1).user_info.active_stake == 0
            &&& (t1 >= r.staking_info.last_stake_redeem && r.user_info.point_balance + accrued(
                r.staking_info.last_stake_redeem,
                t1,
            ) <= u64::MAX) ==> unstake_outcome(u, t1) is Ok
        }),
{
    let s1 = staked(s, t0);
    assert forall|k: int| 0 <= k <= times.len() implies #[trigger] redeem_all(
        redeem_accounts(s1),
        times.take(k),
    ).user_info.active_stake == 1 by {
        lemma_redeem_all_frame(redeem_accounts(s1), times.take(k));
    }
    lemma_redeem_all_frame(redeem_accounts(s1), times);
}

/// A redeem less than an hour after the last one credits nothing but still
/// moves the last redemption to `now`: the part hour is lost.
pub proof fn lemma_redeem_within_period(c: Redeem, now: u64)
    requires
        vault_holds(c.pda_nft_account, c.staking_info_key, c.mint),
        c.staking_info.stake_state == StakeState::Stake,
        c.staking_info.last_stake_redeem <= now,
        now - c.staking_info.last_stake_redeem < HOUR,
    ensures
        redeem_outcome(c, now) is Ok,
        redeemed(c, now).user_info.point_balance == c.user_info.point_balance,
        redeemed(c, now).staking_info.last_stake_redeem == now,
{
    assert(accrued(c.staking_info.last_stake_redeem, now) == 0);
}

/// A second unstake of the same record is refused, at any time.
pub proof fn lemma_unstake_twice(c: Unstake, t1: u64, t2: u64)
    requires
        unstake_outcome(c, t1) is Ok,
    ensures
        unstake_outcome(unstaked(c, t1), t2) == Err::<(), ErrorCode>(ErrorCode::ConstraintViolation),
{
}

} // verus!

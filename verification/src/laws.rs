use vstd::prelude::*;
use crate::error::ErrorCode;
use crate::settlement::{outcome_of, Flip, Outcome, Wager};
use crate::payout::{desired_payout, payout_of, win_threshold, Payout};
use crate::pool::{Initialize, WIN_RETURNS};

verus! {

/// A pool is created at the fixed return percentage, and the record that is
/// written binds the asset, the custody account and the nonce that were given.
pub proof fn creation_fixes_the_return_percentage(ctx: Initialize, nonce: u8)
    ensures
        ctx.record(nonce).win_returns == 90,
        ctx.record(nonce).token_mint == ctx.token_mint,
        ctx.record(nonce).token_vault == ctx.token_vault.key,
        ctx.record(nonce).nonce == nonce,
{
}

/// No settlement changes the pool's record: the return percentage, the asset,
/// the custody binding and the nonce after it are those before it.
pub proof fn settlement_keeps_the_pool_record(ctx: Flip, amount: u64, time_value: i64)
    ensures
        ctx.settled(amount, time_value) matches Ok((accounts, _)) ==> accounts.coin_flip
            == ctx.coin_flip && accounts.coin_flip_key == ctx.coin_flip_key,
{
}

/// A wager of zero is refused as an invalid amount, whatever the accounts and
/// the clock reading.
pub proof fn zero_amount_is_refused(ctx: Flip, time_value: i64)
    ensures
        ctx.settled(0, time_value) == Err::<(Flip, Wager), ErrorCode>(ErrorCode::InvalidAmount),
{
}

/// Every settled wager is a win on an even clock reading and a loss on an odd
/// one.
pub proof fn outcome_follows_parity(ctx: Flip, amount: u64, time_value: i64)
    ensures
        outcome_of(time_value as int) == Outcome::Win <==> time_value % 2 == 0,
        outcome_of(time_value as int) == Outcome::Lose <==> time_value % 2 != 0,
        ctx.settled(amount, time_value) matches Ok((_, wager)) ==> wager.outcome == outcome_of(
            time_value as int,
        ),
{
}

/// The outcome depends on the parity of the clock reading and on nothing
/// else: two settled wagers, on whatever accounts and in whatever order, end
/// alike exactly where their readings have the same parity.
pub proof fn outcome_ignores_history(
    first: Flip,
    first_amount: u64,
    first_time: i64,
    second: Flip,
    second_amount: u64,
    second_time: i64,
)
    requires
        first.settled(first_amount, first_time) is Ok,
        second.settled(second_amount, second_time) is Ok,
    ensures
        (first.settled(first_amount, first_time)->Ok_0.1.outcome == second.settled(
            second_amount,
            second_time,
        )->Ok_0.1.outcome) <==> (first_time % 2 == second_time % 2),
{
}

/// Two clock readings one apart give different outcomes.
pub proof fn consecutive_readings_differ(time_value: int)
    ensures
        outcome_of(time_value) != outcome_of(time_value + 1),
{
}

/// A settled win whose custody, with the stake in it, reaches the threshold
/// pays the stake and the bonus in full, rounded down, and custody ends at
/// what it held plus the stake less the payout.
pub proof fn full_win_pays_stake_and_bonus(ctx: Flip, amount: u64, time_value: i64)
    requires
        ctx.settled(amount, time_value) is Ok,
        time_value % 2 == 0,
        ctx.token_vault.amount + amount >= win_threshold(
            amount as int,
            ctx.coin_flip.win_returns as int,
        ),
    ensures
        ({
            let (accounts, wager) = ctx.settled(amount, time_value)->Ok_0;
            &&& wager.outcome == Outcome::Win
            &&& !wager.degraded
            &&& wager.payout_amount == amount * (100 + ctx.coin_flip.win_returns) / 100
            &&& accounts.token_vault.amount == ctx.token_vault.amount + amount
                - wager.payout_amount
            &&& accounts.stake_from_account.amount == ctx.stake_from_account.amount - amount
                + wager.payout_amount
        }),
{
}

/// A settled win whose custody, with the stake in it, is below the threshold
/// pays everything that custody then holds and leaves custody empty.
pub proof fn degraded_win_empties_custody(ctx: Flip, amount: u64, time_value: i64)
    requires
        ctx.settled(amount, time_value) is Ok,
        time_value % 2 == 0,
        ctx.token_vault.amount + amount < win_threshold(
            amount as int,
            ctx.coin_flip.win_returns as int,
        ),
    ensures
        ({
            let (accounts, wager) = ctx.settled(amount, time_value)->Ok_0;
            &&& wager.outcome == Outcome::Win
            &&& wager.degraded
            &&& wager.payout_amount == ctx.token_vault.amount + amount
            &&& accounts.token_vault.amount == 0
        }),
{
}

/// A settled loss keeps the stake in custody and pays nothing out.
pub proof fn loss_keeps_the_stake(ctx: Flip, amount: u64, time_value: i64)
    requires
        ctx.settled(amount, time_value) is Ok,
        time_value % 2 != 0,
    ensures
        ({
            let (accounts, wager) = ctx.settled(amount, time_value)->Ok_0;
            &&& wager.outcome == Outcome::Lose
            &&& wager.payout_amount == 0
            &&& accounts.token_vault.amount == ctx.token_vault.amount + amount
            &&& accounts.stake_from_account.amount == ctx.stake_from_account.amount - amount
        }),
{
}

/// The pool never pays out more than it holds: the payout of a settled wager
/// is at most what custody held with the stake in it, and the two balances
/// together are what they were.
pub proof fn payout_never_exceeds_custody(ctx: Flip, amount: u64, time_value: i64)
    requires
        ctx.settled(amount, time_value) is Ok,
    ensures
        ({
            let (accounts, wager) = ctx.settled(amount, time_value)->Ok_0;
            &&& wager.amount == amount
            &&& amount > 0
            &&& wager.payout_amount <= ctx.token_vault.amount + amount
            &&& accounts.token_vault.amount + accounts.stake_from_account.amount
                == ctx.token_vault.amount + ctx.stake_from_account.amount
        }),
{
}

/// At the fixed return percentage a stake never finds custody below the
/// threshold, since custody then holds the stake itself: every settled win of
/// such a pool is paid in full.
pub proof fn fixed_percentage_never_degrades(ctx: Flip, amount: u64, time_value: i64)
    requires
        ctx.settled(amount, time_value) is Ok,
        ctx.coin_flip.win_returns == WIN_RETURNS,
    ensures
        !ctx.settled(amount, time_value)->Ok_0.1.degraded,
{
}

/// The payout rule pays either everything in custody, flagged as degraded, or
/// the full payout, and the full payout is the stake plus the threshold.
pub proof fn payout_is_full_or_everything(stake: u64, percent: u8, custody_balance: u64)
    ensures
        payout_of(stake, percent, custody_balance) matches Ok(p) ==> if custody_balance
            < win_threshold(stake as int, percent as int) {
            p == (Payout { amount: custody_balance, degraded: true })
        } else {
            &&& !p.degraded
            &&& p.amount == desired_payout(stake as int, percent as int)
            &&& p.amount == stake + win_threshold(stake as int, percent as int)
        },
{
    let bonus = stake * percent;
    assert(stake * (100 + percent) == 100 * stake + bonus) by (nonlinear_arith)
        requires
            bonus == stake * percent,
    ;
    assert((100 * stake + bonus) / 100 == stake + bonus / 100);
}

} // verus!

use vstd::prelude::*;
use crate::address::Address;
use crate::error::ErrorCode;
use crate::ledger::{transfer, transfer_allowed, TokenAccount};
use crate::payout::{payout, payout_of, Payout};
use crate::pool::{authority_controls, check_authority, CoinFlip};

verus! {

/// How a wager ends.
#[derive(Clone, Copy, Debug, PartialEq, Eq, Structural)]
pub enum Outcome {
    Win,
    Lose,
}

/// The outcome that a clock reading gives: a win on an even reading, a loss on
/// an odd one. The reading is public before the wager is placed; the outcome
/// is exactly as predictable as the clock.
pub open spec fn outcome_of(time_value: int) -> Outcome {
    if time_value % 2 == 0 {
        Outcome::Win
    } else {
        Outcome::Lose
    }
}

/// Reads the outcome off a clock reading.
pub fn determine_outcome(time_value: i64) -> (o: Outcome)
    ensures
        o == outcome_of(time_value as int),
{
    if time_value % 2 == 0 {
        Outcome::Win
    } else {
        Outcome::Lose
    }
}

/// One settled wager.
#[derive(Clone, Copy, Debug, PartialEq, Eq)]
pub struct Wager {
    /// The stake, above zero.
    pub amount: u64,
    /// The participant's account, which paid the stake and is paid a win.
    pub participant_account: Address,
    pub outcome: Outcome,
    /// What was paid out of custody: zero on a loss.
    pub payout_amount: u64,
    /// Whether a win was paid everything in custody in place of the full payout.
    pub degraded: bool,
}

impl Wager {
    /// The text of the note that a settlement leaves: a loss, a win paid in
    /// full, or a win paid with all that custody held.
    pub open spec fn message_text(self) -> Seq<char> {
        if self.outcome == Outcome::Lose {
            "Sorry, You lost!"@
        } else if self.degraded {
            "Congratulations, You won! Sry, we didn't have enough reward to gib you. So, we'll gib you all the remaining reward in the vault"@
        } else {
            "Congratulations, You won!"@
        }
    }

    /// Returns the note that the settlement leaves for the participant.
    pub fn message(&self) -> (s: &'static str)
        ensures
            s@ == self.message_text(),
    {
        match self.outcome {
            Outcome::Lose => "Sorry, You lost!",
            Outcome::Win => if self.degraded {
                "Congratulations, You won! Sry, we didn't have enough reward to gib you. So, we'll gib you all the remaining reward in the vault"
            } else {
                "Congratulations, You won!"
            },
        }
    }
}

/// The accounts handed to a settlement.
#[derive(Clone, Copy, Debug, PartialEq, Eq)]
pub struct Flip {
    /// The pool's record.
    pub coin_flip: CoinFlip,
    /// The address of the pool's record, the pool's identity.
    pub coin_flip_key: Address,
    /// The participant, who authorises the stake.
    pub signer: Address,
    /// The custody account.
    pub token_vault: TokenAccount,
    /// The participant's account.
    pub stake_from_account: TokenAccount,
    /// The account offered as the pool's signing authority.
    pub pool_signer: Address,
}

impl Flip {
    /// Whether the supplied custody account is the one that the pool records
    /// and is controlled by the authority derived from the pool's nonce.
    pub open spec fn pool_matches(self) -> bool {
        &&& self.token_vault.key == self.coin_flip.token_vault
        &&& authority_controls(
            self.coin_flip_key,
            self.coin_flip.nonce,
            self.pool_signer,
            self.token_vault,
        )
    }

    /// Whether the ledger accepts the stake of `amount` from the participant.
    pub open spec fn stake_accepted(self, amount: u64) -> bool {
        transfer_allowed(self.stake_from_account, self.token_vault, self.signer, amount)
    }

    /// The accounts once the stake of `amount` is in custody.
    pub open spec fn staked(self, amount: u64) -> Flip {
        Flip {
            token_vault: self.token_vault.credited(amount),
            stake_from_account: self.stake_from_account.debited(amount),
            ..self
        }
    }

    /// The accounts once `amount` has left custody for the participant.
    pub open spec fn paid(self, amount: u64) -> Flip {
        Flip {
            token_vault: self.token_vault.debited(amount),
            stake_from_account: self.stake_from_account.credited(amount),
            ..self
        }
    }

    /// Whether the ledger accepts a payout of `amount` out of custody.
    pub open spec fn payout_accepted(self, amount: u64) -> bool {
        transfer_allowed(self.token_vault, self.stake_from_account, self.pool_signer, amount)
    }

    /// A settlement in full: the error that ends it, or the accounts and the
    /// wager that it leaves. The steps come in this order: the amount and the
    /// accounts are checked, the stake is collected, the clock reading
    /// decides, and a win is computed and paid.
    pub open spec fn settled(self, amount: u64, time_value: i64) -> Result<(Flip, Wager), ErrorCode> {
        if amount == 0 {
            Err(ErrorCode::InvalidAmount)
        } else if !self.pool_matches() {
            Err(ErrorCode::PoolMismatch)
        } else if !self.stake_accepted(amount) {
            Err(ErrorCode::TransferFailure)
        } else if outcome_of(time_value as int) == Outcome::Lose {
            Ok((self.staked(amount), self.wager(amount, Outcome::Lose, 0, false)))
        } else {
            match payout_of(
                amount,
                self.coin_flip.win_returns,
                self.staked(amount).token_vault.amount,
            ) {
                Err(e) => Err(e),
                Ok(p) => if self.staked(amount).payout_accepted(p.amount) {
                    Ok(
                        (
                            self.staked(amount).paid(p.amount),
                            self.wager(amount, Outcome::Win, p.amount, p.degraded),
                        ),
                    )
                } else {
                    Err(ErrorCode::TransferFailure)
                },
            }
        }
    }

    /// The wager of `amount` from the participant's account with the given end.
    pub open spec fn wager(self, amount: u64, outcome: Outcome, payout_amount: u64, degraded: bool) -> Wager {
        Wager {
            amount,
            participant_account: self.stake_from_account.key,
            outcome,
            payout_amount,
            degraded,
        }
    }
}

/// Settles one wager of `amount` at the clock reading `time_value`: collects
/// the stake into custody, and on a win pays the participant out of custody on
/// the word of the pool's derived authority. A settlement that fails at any
/// step leaves every account as it was; the pool's record never changes.
pub fn flip(ctx: &mut Flip, amount: u64, time_value: i64) -> (r: Result<Wager, ErrorCode>)
    ensures
        match old(ctx).settled(amount, time_value) {
            Ok((accounts, wager)) => r == Ok::<Wager, ErrorCode>(wager) && *final(ctx) == accounts,
            Err(e) => r == Err::<Wager, ErrorCode>(e) && *final(ctx) == *old(ctx),
        },
        amount == 0 ==> r == Err::<Wager, ErrorCode>(ErrorCode::InvalidAmount),
        r is Err ==> *final(ctx) == *old(ctx),
        final(ctx).coin_flip == old(ctx).coin_flip,
        r matches Ok(wager) ==> wager.outcome == outcome_of(time_value as int),
{
    if amount == 0 {
        return Err(ErrorCode::InvalidAmount);
    }
    if !ctx.token_vault.key.same(&ctx.coin_flip.token_vault) {
        return Err(ErrorCode::PoolMismatch);
    }
    if !check_authority(&ctx.coin_flip_key, ctx.coin_flip.nonce, &ctx.pool_signer, &ctx.token_vault) {
        return Err(ErrorCode::PoolMismatch);
    }
    let mut vault = ctx.token_vault;
    let mut participant = ctx.stake_from_account;
    match transfer(&mut participant, &mut vault, &ctx.signer, amount) {
        Err(e) => { return Err(e); },
        Ok(()) => {},
    }
    let outcome = determine_outcome(time_value);
    let mut paid = Payout { amount: 0, degraded: false };
    match outcome {
        Outcome::Lose => {},
        Outcome::Win => {
            match payout(amount, ctx.coin_flip.win_returns, vault.amount) {
                Err(e) => { return Err(e); },
                Ok(p) => { paid = p; },
            }
            match transfer(&mut vault, &mut participant, &ctx.pool_signer, paid.amount) {
                Err(e) => { return Err(e); },
                Ok(()) => {},
            }
        },
    }
    ctx.token_vault = vault;
    ctx.stake_from_account = participant;
    Ok(
        Wager {
            amount,
            participant_account: ctx.stake_from_account.key,
            outcome,
            payout_amount: paid.amount,
            degraded: paid.degraded,
        },
    )
}

} // verus!

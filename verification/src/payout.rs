use vstd::prelude::*;
use crate::error::ErrorCode;

verus! {

/// What a winning wager is paid, and whether custody could not cover the
/// bonus so that everything it held is paid instead.
#[derive(Clone, Copy, Debug, PartialEq, Eq, Structural)]
pub struct Payout {
    pub amount: u64,
    pub degraded: bool,
}

/// The bonus portion of a win: `stake * percent / 100`, rounded down. Custody
/// must hold at least this much for the full payout to be owed.
pub open spec fn win_threshold(stake: int, percent: int) -> int {
    stake * percent / 100
}

/// The full payout of a win: `stake * (100 + percent) / 100`, rounded down.
pub open spec fn desired_payout(stake: int, percent: int) -> int {
    stake * (100 + percent) / 100
}

/// The payout rule. The threshold product is formed first; where custody is
/// below the threshold everything in custody is paid, and only otherwise is
/// the product of the full payout formed. A product beyond `u64::MAX` is an
/// overflow.
pub open spec fn payout_of(stake: u64, percent: u8, custody_balance: u64) -> Result<
    Payout,
    ErrorCode,
> {
    if stake * percent > u64::MAX {
        Err(ErrorCode::ArithmeticOverflow)
    } else if custody_balance < win_threshold(stake as int, percent as int) {
        Ok(Payout { amount: custody_balance, degraded: true })
    } else if stake * (100 + percent) > u64::MAX {
        Err(ErrorCode::ArithmeticOverflow)
    } else {
        Ok(Payout { amount: desired_payout(stake as int, percent as int) as u64, degraded: false })
    }
}

/// Computes the payout of a winning wager of `stake` from a pool that adds
/// `percent` per cent and whose custody holds `custody_balance`.
pub fn payout(stake: u64, percent: u8, custody_balance: u64) -> (r: Result<Payout, ErrorCode>)
    ensures
        r == payout_of(stake, percent, custody_balance),
{
    let percent64: u64 = percent.into();
    let bonus = match stake.checked_mul(percent64) {
        Some(product) => product / 100,
        None => { return Err(ErrorCode::ArithmeticOverflow); },
    };
    if custody_balance < bonus {
        return Ok(Payout { amount: custody_balance, degraded: true });
    }
    match stake.checked_mul(100 + percent64) {
        Some(product) => Ok(Payout { amount: product / 100, degraded: false }),
        None => Err(ErrorCode::ArithmeticOverflow),
    }
}

} // verus!

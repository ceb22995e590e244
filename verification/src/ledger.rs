use vstd::prelude::*;
use crate::address::Address;
use crate::error::ErrorCode;

verus! {

/// What the settlement reads of an account that holds units of one asset.
#[derive(Clone, Copy, Debug, PartialEq, Eq)]
pub struct TokenAccount {
    /// The account's own address.
    pub key: Address,
    /// The asset that the account holds.
    pub mint: Address,
    /// The authority that controls the account.
    pub owner: Address,
    /// The balance, in units of the asset.
    pub amount: u64,
}

impl TokenAccount {
    /// The account with `amount` units taken out.
    pub open spec fn debited(self, amount: u64) -> TokenAccount {
        TokenAccount { amount: (self.amount - amount) as u64, ..self }
    }

    /// The account with `amount` units put in.
    pub open spec fn credited(self, amount: u64) -> TokenAccount {
        TokenAccount { amount: (self.amount + amount) as u64, ..self }
    }
}

/// When the ledger moves `amount` units from `from` to `to` on the word of
/// `authority`: the two are distinct accounts of one asset, `authority`
/// controls the source, the source holds the amount and the destination's
/// balance stays within sixty-four bits.
pub open spec fn transfer_allowed(
    from: TokenAccount,
    to: TokenAccount,
    authority: Address,
    amount: u64,
) -> bool {
    &&& from.key != to.key
    &&& from.mint == to.mint
    &&& from.owner == authority
    &&& from.amount >= amount
    &&& to.amount + amount <= u64::MAX
}

/// Moves `amount` units from `from` to `to` where the ledger allows it, and
/// changes nothing where it does not.
pub fn transfer(
    from: &mut TokenAccount,
    to: &mut TokenAccount,
    authority: &Address,
    amount: u64,
) -> (r: Result<(), ErrorCode>)
    ensures
        r is Ok <==> transfer_allowed(*old(from), *old(to), *authority, amount),
        r is Ok ==> *final(from) == old(from).debited(amount) && *final(to) == old(to).credited(
            amount,
        ),
        r is Err ==> r == Err::<(), ErrorCode>(ErrorCode::TransferFailure) && *final(from) == *old(
            from,
        ) && *final(to) == *old(to),
{
    if from.key.same(&to.key) || !from.mint.same(&to.mint) || !from.owner.same(authority) {
        return Err(ErrorCode::TransferFailure);
    }
    if from.amount < amount || amount > u64::MAX - to.amount {
        return Err(ErrorCode::TransferFailure);
    }
    from.amount = from.amount - amount;
    to.amount = to.amount + amount;
    Ok(())
}

} // verus!

use vstd::prelude::*;
use crate::address::Address;
use crate::authority::{authority_of, derive_authority};
use crate::error::ErrorCode;
use crate::ledger::TokenAccount;

verus! {

/// The bytes of the address under which the program is deployed.
pub const PROGRAM_ID: [u8; 32] = [
    218, 7, 92, 178, 255, 94, 198, 129, 118, 19, 222, 83, 11, 105, 42, 135,
    53, 71, 119, 105, 218, 71, 67, 12, 189, 129, 84, 51, 92, 74, 131, 39,
];

/// The percentage that every pool adds to a winning wager.
pub const WIN_RETURNS: u8 = 90;

/// The program's own address, under which pool authorities are derived.
pub open spec fn program_id() -> Address {
    Address { bytes: PROGRAM_ID }
}

/// Returns the program's own address.
pub fn id() -> (a: Address)
    ensures
        a == program_id(),
{
    Address::new(PROGRAM_ID)
}

/// The record of one wagering pool.
#[derive(Clone, Copy, Debug, PartialEq, Eq)]
pub struct CoinFlip {
    /// Percentage added to the stake of a winning wager.
    pub win_returns: u8,
    /// The asset that the pool accepts.
    pub token_mint: Address,
    /// The custody account that holds the pooled funds.
    pub token_vault: Address,
    /// The byte from which the pool's signing authority is derived.
    pub nonce: u8,
}

/// The accounts handed to pool creation.
#[derive(Clone, Copy, Debug, PartialEq, Eq)]
pub struct Initialize {
    /// The slot for the pool's record: `None` while it is empty.
    pub coin_flip: Option<CoinFlip>,
    /// The address of the pool's record, the pool's identity.
    pub coin_flip_key: Address,
    /// The asset that the pool is to accept.
    pub token_mint: Address,
    /// The custody account.
    pub token_vault: TokenAccount,
    /// The account offered as the pool's signing authority.
    pub pool_signer: Address,
}

/// Whether `pool_signer` is the authority derived from the pool's identity
/// and `nonce`, and controls `vault`.
pub open spec fn authority_controls(
    pool: Address,
    nonce: u8,
    pool_signer: Address,
    vault: TokenAccount,
) -> bool {
    &&& authority_of(pool, nonce, program_id()) == Some(pool_signer@)
    &&& vault.owner == pool_signer
}

/// Checks `authority_controls` by deriving the authority anew.
pub fn check_authority(pool: &Address, nonce: u8, pool_signer: &Address, vault: &TokenAccount) -> (r:
    bool)
    ensures
        r == authority_controls(*pool, nonce, *pool_signer, *vault),
{
    let program = id();
    match derive_authority(pool, nonce, &program) {
        Some(derived) => derived.same(pool_signer) && vault.owner.same(pool_signer),
        None => false,
    }
}

impl Initialize {
    /// The error that pool creation with `nonce` meets, if any: an occupied
    /// slot first, then a custody account of another asset or under another
    /// authority.
    pub open spec fn refusal(self, nonce: u8) -> Option<ErrorCode> {
        if self.coin_flip is Some {
            Some(ErrorCode::AlreadyInitialized)
        } else if self.token_vault.mint != self.token_mint || !authority_controls(
            self.coin_flip_key,
            nonce,
            self.pool_signer,
            self.token_vault,
        ) {
            Some(ErrorCode::AccountMismatch)
        } else {
            None
        }
    }

    /// The record that pool creation with `nonce` writes.
    pub open spec fn record(self, nonce: u8) -> CoinFlip {
        CoinFlip {
            win_returns: WIN_RETURNS,
            token_mint: self.token_mint,
            token_vault: self.token_vault.key,
            nonce,
        }
    }
}

/// Creates the pool: fills the empty slot with a record that binds the pool to
/// the asset, the custody account and `nonce`, at the fixed return percentage.
/// On any refusal nothing changes. No funds move either way.
pub fn initialize(ctx: &mut Initialize, nonce: u8) -> (r: Result<(), ErrorCode>)
    ensures
        match old(ctx).refusal(nonce) {
            Some(e) => r == Err::<(), ErrorCode>(e) && *final(ctx) == *old(ctx),
            None => r is Ok && *final(ctx) == (Initialize {
                coin_flip: Some(old(ctx).record(nonce)),
                ..*old(ctx)
            }),
        },
{
    if ctx.coin_flip.is_some() {
        return Err(ErrorCode::AlreadyInitialized);
    }
    if !ctx.token_vault.mint.same(&ctx.token_mint) {
        return Err(ErrorCode::AccountMismatch);
    }
    if !check_authority(&ctx.coin_flip_key, nonce, &ctx.pool_signer, &ctx.token_vault) {
        return Err(ErrorCode::AccountMismatch);
    }
    ctx.coin_flip = Some(
        CoinFlip {
            win_returns: WIN_RETURNS,
            token_mint: ctx.token_mint,
            token_vault: ctx.token_vault.key,
            nonce,
        },
    );
    Ok(())
}

} // verus!

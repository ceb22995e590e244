use vstd::prelude::*;
use crate::address::Address;
use anchor_lang::solana_program::pubkey::Pubkey;

verus! {

/// The error that the ledger's address derivation reports.
#[verifier::external_type_specification]
#[verifier::external_body]
pub struct ExPubkeyError(anchor_lang::solana_program::pubkey::PubkeyError);

/// The address that the ledger derives for a program from a thirty-two byte
/// seed followed by a one-byte nonce, or `None` where the derivation rejects
/// the seeds. It is a function of its three arguments alone.
pub uninterp spec fn program_address(seed: Seq<u8>, nonce: u8, program: Seq<u8>) -> Option<Seq<u8>>;

/// Calls `Pubkey::create_program_address` with the two seeds `seed` and
/// `[nonce]` under the program `program`. Trusted: the result is the derived
/// address, named by `program_address`, and an error exactly where no address
/// is derived.
#[verifier::external_body]
fn create_program_address(seed: &[u8; 32], nonce: u8, program: &[u8; 32]) -> (r: Result<
    [u8; 32],
    anchor_lang::solana_program::pubkey::PubkeyError,
>)
    ensures
        match r {
            Ok(a) => program_address(seed@, nonce, program@) == Some(a@),
            Err(_) => program_address(seed@, nonce, program@) is None,
        },
{
    let program_id = Pubkey::new_from_array(*program);
    match Pubkey::create_program_address(&[&seed[..], &[nonce][..]], &program_id) {
        Ok(key) => Ok(key.to_bytes()),
        Err(e) => Err(e),
    }
}

/// The signing authority that `program` controls for the pool at `pool` under
/// `nonce`, where one exists.
pub open spec fn authority_of(pool: Address, nonce: u8, program: Address) -> Option<Seq<u8>> {
    program_address(pool@, nonce, program@)
}

/// Derives the pool's signing authority: `Some` address exactly where the
/// ledger derives one for these seeds.
pub fn derive_authority(pool: &Address, nonce: u8, program: &Address) -> (r: Option<Address>)
    ensures
        match r {
            Some(a) => authority_of(*pool, nonce, *program) == Some(a@),
            None => authority_of(*pool, nonce, *program) is None,
        },
{
    match create_program_address(&pool.bytes, nonce, &program.bytes) {
        Ok(bytes) => Some(Address::new(bytes)),
        Err(_) => None,
    }
}

} // verus!

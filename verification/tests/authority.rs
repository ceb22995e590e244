use anchor_lang::solana_program::pubkey::Pubkey;
use coinflip::address::Address;
use coinflip::authority::derive_authority;
use coinflip::pool::id;
use std::str::FromStr;

fn pool_key(tag: u8) -> Address {
    let mut bytes = [0u8; 32];
    bytes[0] = tag;
    bytes[31] = 7;
    Address::new(bytes)
}

#[test]
fn program_address_is_the_declared_one() {
    let declared = Pubkey::from_str("Fg6PaFpoGXkYsidMpWTK6W2BeZ7FEfcYkg476zPFsLnS").unwrap();
    assert_eq!(id().bytes, declared.to_bytes());
}

#[test]
fn derived_authority_is_the_ledgers_program_address() {
    for tag in 0u8..8 {
        let pool = pool_key(tag);
        let program = Pubkey::new_from_array(id().bytes);
        let (expected, bump) = Pubkey::find_program_address(&[&pool.bytes[..]], &program);
        let derived = derive_authority(&pool, bump, &id());
        assert_eq!(derived, Some(Address::new(expected.to_bytes())));
        assert_ne!(derived, Some(pool));
        assert_ne!(derived, Some(id()));
    }
}

#[test]
fn derivation_agrees_with_the_ledger_on_every_nonce() {
    let pool = pool_key(42);
    let program = Pubkey::new_from_array(id().bytes);
    let mut derived_some = 0;
    let mut derived_none = 0;
    for nonce in 0u8..=255 {
        let expected = Pubkey::create_program_address(&[&pool.bytes[..], &[nonce][..]], &program)
            .ok()
            .map(|key| Address::new(key.to_bytes()));
        assert_eq!(derive_authority(&pool, nonce, &id()), expected);
        if expected.is_some() {
            derived_some += 1;
        } else {
            derived_none += 1;
        }
    }
    assert!(derived_some > 0);
    assert!(derived_none > 0);
}

#[test]
fn derivation_depends_on_pool_nonce_and_program() {
    let pool = pool_key(1);
    let other_pool = pool_key(2);
    let other_program = pool_key(3);
    let program = Pubkey::new_from_array(id().bytes);
    let (_, bump) = Pubkey::find_program_address(&[&pool.bytes[..]], &program);
    let derived = derive_authority(&pool, bump, &id());
    assert!(derived.is_some());
    assert_ne!(derive_authority(&other_pool, bump, &id()), derived);
    assert_ne!(derive_authority(&pool, bump, &other_program), derived);
    assert_ne!(derive_authority(&pool, bump.wrapping_sub(1), &id()), derived);
    assert_eq!(derive_authority(&pool, bump, &id()), derived);
}

#[test]
fn addresses_compare_byte_by_byte() {
    let a = pool_key(1);
    let mut bytes = a.bytes;
    assert!(a.same(&Address::new(bytes)));
    bytes[31] = 8;
    assert!(!a.same(&Address::new(bytes)));
    bytes[31] = 7;
    bytes[0] = 0;
    assert!(!a.same(&Address::new(bytes)));
}

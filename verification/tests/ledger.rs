use coinflip::address::Address;
use coinflip::error::ErrorCode;
use coinflip::ledger::{transfer, TokenAccount};

fn address(tag: u8) -> Address {
    Address::new([tag; 32])
}

fn account(key: u8, owner: u8, amount: u64) -> TokenAccount {
    TokenAccount { key: address(key), mint: address(200), owner: address(owner), amount }
}

#[test]
fn transfer_moves_the_amount() {
    let mut from = account(1, 10, 500);
    let mut to = account(2, 20, 1000);
    assert_eq!(transfer(&mut from, &mut to, &address(10), 100), Ok(()));
    assert_eq!(from, account(1, 10, 400));
    assert_eq!(to, account(2, 20, 1100));
}

#[test]
fn transfer_of_the_whole_balance() {
    let mut from = account(1, 10, 500);
    let mut to = account(2, 20, 0);
    assert_eq!(transfer(&mut from, &mut to, &address(10), 500), Ok(()));
    assert_eq!(from.amount, 0);
    assert_eq!(to.amount, 500);
}

#[test]
fn transfer_needs_the_funds() {
    let mut from = account(1, 10, 99);
    let mut to = account(2, 20, 1000);
    assert_eq!(transfer(&mut from, &mut to, &address(10), 100), Err(ErrorCode::TransferFailure));
    assert_eq!(from, account(1, 10, 99));
    assert_eq!(to, account(2, 20, 1000));
}

#[test]
fn transfer_needs_the_controlling_authority() {
    let mut from = account(1, 10, 500);
    let mut to = account(2, 20, 1000);
    assert_eq!(transfer(&mut from, &mut to, &address(20), 100), Err(ErrorCode::TransferFailure));
    assert_eq!(from, account(1, 10, 500));
    assert_eq!(to, account(2, 20, 1000));
}

#[test]
fn transfer_needs_one_asset() {
    let mut from = account(1, 10, 500);
    let mut to = account(2, 20, 1000);
    to.mint = address(201);
    assert_eq!(transfer(&mut from, &mut to, &address(10), 100), Err(ErrorCode::TransferFailure));
    assert_eq!(from.amount, 500);
    assert_eq!(to.amount, 1000);
}

#[test]
fn transfer_needs_two_accounts() {
    let mut from = account(1, 10, 500);
    let mut to = account(1, 10, 500);
    assert_eq!(transfer(&mut from, &mut to, &address(10), 100), Err(ErrorCode::TransferFailure));
    assert_eq!(from.amount, 500);
    assert_eq!(to.amount, 500);
}

#[test]
fn transfer_keeps_the_destination_within_range() {
    let mut from = account(1, 10, 500);
    let mut to = account(2, 20, u64::MAX - 99);
    assert_eq!(transfer(&mut from, &mut to, &address(10), 100), Err(ErrorCode::TransferFailure));
    assert_eq!(transfer(&mut from, &mut to, &address(10), 99), Ok(()));
    assert_eq!(from.amount, 401);
    assert_eq!(to.amount, u64::MAX);
}

#[test]
fn degraded_payout_empties_custody() {
    let paid = coinflip::payout::payout(100, 90, 50).unwrap();
    assert_eq!(paid.amount, 50);
    assert!(paid.degraded);
    let mut vault = account(1, 10, 50);
    let mut participant = account(2, 20, 400);
    assert_eq!(transfer(&mut vault, &mut participant, &address(10), paid.amount), Ok(()));
    assert_eq!(vault.amount, 0);
    assert_eq!(participant.amount, 450);
}

use onchain_core::keys::Address;
use onchain_core::token::{
    approve, burn, close_account, freeze_delegated, mint_to, native_transfer, revoke,
    thaw_delegated, transfer_checked, TokenAccount, TokenError, TokenMint,
};

fn addr(n: u64) -> Address {
    Address { w0: n, w1: 0, w2: 0, w3: 0 }
}

fn acct(mint: Address, authority: Address, amount: u64) -> TokenAccount {
    TokenAccount { mint, authority, amount, delegate: None, delegated_amount: 0, frozen: false, rent: 0 }
}

fn mint(decimals: u8) -> TokenMint {
    TokenMint { supply: 1_000, decimals, mint_authority: addr(5) }
}

#[test]
fn token_transfer_checked_moves_exact_amount() {
    let mut from = acct(addr(10), addr(1), 100);
    let mut to = acct(addr(10), addr(2), 7);
    transfer_checked(&mut from, &mut to, &addr(10), &mint(6), 40, 6, &addr(1)).unwrap();
    assert_eq!(from.amount, 60);
    assert_eq!(to.amount, 47);
}

#[test]
fn token_transfer_checked_error_order() {
    let m = mint(6);
    let mut from = acct(addr(10), addr(1), 100);
    let mut to = acct(addr(11), addr(2), 0);
    assert!(matches!(
        transfer_checked(&mut from, &mut to, &addr(10), &m, 1, 6, &addr(1)),
        Err(TokenError::WrongMint)
    ));
    let mut to = acct(addr(10), addr(2), 0);
    assert!(matches!(
        transfer_checked(&mut from, &mut to, &addr(10), &m, 1, 5, &addr(1)),
        Err(TokenError::DecimalMismatch)
    ));
    assert!(matches!(
        transfer_checked(&mut from, &mut to, &addr(10), &m, 1, 6, &addr(9)),
        Err(TokenError::WrongAuthority)
    ));
    from.frozen = true;
    assert!(matches!(
        transfer_checked(&mut from, &mut to, &addr(10), &m, 1, 6, &addr(1)),
        Err(TokenError::AccountFrozen)
    ));
    from.frozen = false;
    assert!(matches!(
        transfer_checked(&mut from, &mut to, &addr(10), &m, 101, 6, &addr(1)),
        Err(TokenError::InsufficientBalance)
    ));
    to.amount = u64::MAX;
    assert!(matches!(
        transfer_checked(&mut from, &mut to, &addr(10), &m, 1, 6, &addr(1)),
        Err(TokenError::Overflow)
    ));
    assert_eq!(from.amount, 100);
}

#[test]
fn token_mint_to_requires_mint_authority() {
    let mut m = mint(6);
    let mut to = acct(addr(10), addr(2), 0);
    assert!(matches!(
        mint_to(&addr(10), &mut m, &mut to, 5, &addr(9)),
        Err(TokenError::WrongAuthority)
    ));
    mint_to(&addr(10), &mut m, &mut to, 5, &addr(5)).unwrap();
    assert_eq!(m.supply, 1_005);
    assert_eq!(to.amount, 5);
}

#[test]
fn token_burn_reduces_supply_and_balance() {
    let mut m = mint(6);
    let mut from = acct(addr(10), addr(1), 50);
    assert!(matches!(
        burn(&addr(10), &mut m, &mut from, 51, &addr(1)),
        Err(TokenError::InsufficientBalance)
    ));
    burn(&addr(10), &mut m, &mut from, 50, &addr(1)).unwrap();
    assert_eq!(m.supply, 950);
    assert_eq!(from.amount, 0);
}

#[test]
fn token_approve_freeze_thaw_revoke_cycle() {
    let mut a = acct(addr(10), addr(1), 1);
    assert!(matches!(
        approve(&mut a, &addr(40), &addr(9), 1),
        Err(TokenError::WrongAuthority)
    ));
    approve(&mut a, &addr(40), &addr(1), 1).unwrap();
    assert_eq!(a.delegate, Some(addr(40)));
    assert_eq!(a.delegated_amount, 1);
    assert!(matches!(
        freeze_delegated(&mut a, &addr(41)),
        Err(TokenError::WrongAuthority)
    ));
    freeze_delegated(&mut a, &addr(40)).unwrap();
    assert!(a.frozen);
    assert!(matches!(
        freeze_delegated(&mut a, &addr(40)),
        Err(TokenError::AccountFrozen)
    ));
    thaw_delegated(&mut a, &addr(40)).unwrap();
    assert!(!a.frozen);
    assert!(matches!(
        thaw_delegated(&mut a, &addr(40)),
        Err(TokenError::NotFrozen)
    ));
    revoke(&mut a, &addr(1)).unwrap();
    assert_eq!(a.delegate, None);
    assert_eq!(a.delegated_amount, 0);
}

#[test]
fn token_close_account_requires_zero_balance() {
    let mut a = acct(addr(10), addr(1), 3);
    a.rent = 25;
    let mut dest: u64 = 100;
    assert!(matches!(
        close_account(&mut a, &mut dest, &addr(1)),
        Err(TokenError::NonZeroBalance)
    ));
    a.amount = 0;
    close_account(&mut a, &mut dest, &addr(1)).unwrap();
    assert_eq!(dest, 125);
    assert_eq!(a.rent, 0);
}

#[test]
fn token_native_transfer_checks_balance_and_overflow() {
    let mut from: u64 = 100;
    let mut to: u64 = 0;
    native_transfer(&mut from, &mut to, 60).unwrap();
    assert_eq!(from, 40);
    assert_eq!(to, 60);
    assert!(matches!(
        native_transfer(&mut from, &mut to, 41),
        Err(TokenError::InsufficientBalance)
    ));
    let mut big: u64 = u64::MAX;
    assert!(matches!(
        native_transfer(&mut from, &mut big, 1),
        Err(TokenError::Overflow)
    ));
    assert_eq!(from, 40);
}

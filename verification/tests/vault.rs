use onchain_core::keys::Address;
use onchain_core::vault::{Deposit, Initialize, VaultError, Withdraw};

fn addr(n: u64) -> Address {
    Address { w0: n, w1: 0, w2: 0, w3: 0 }
}

#[test]
fn vault_initialize_persists_bumps() {
    let state = Initialize { signer: addr(1), state_bump: 254, vault_bump: 253 }.initialize();
    assert_eq!(state.state_bump, 254);
    assert_eq!(state.vault_bump, 253);
}

#[test]
fn vault_deposit_moves_lamports_in() {
    let state = Initialize { signer: addr(1), state_bump: 254, vault_bump: 253 }.initialize();
    let mut ctx = Deposit { signer: addr(1), signer_lamports: 1_000, vault_lamports: 0, state };
    ctx.deposit(400).unwrap();
    assert_eq!(ctx.signer_lamports, 600);
    assert_eq!(ctx.vault_lamports, 400);
}

#[test]
fn vault_deposit_rejects_insufficient_signer_balance() {
    let state = Initialize { signer: addr(1), state_bump: 254, vault_bump: 253 }.initialize();
    let mut ctx = Deposit { signer: addr(1), signer_lamports: 100, vault_lamports: 0, state };
    assert!(matches!(ctx.deposit(400), Err(VaultError::InsufficientBalance)));
    assert_eq!(ctx.signer_lamports, 100);
    assert_eq!(ctx.vault_lamports, 0);
}

#[test]
fn vault_withdraw_moves_lamports_out() {
    let state = Initialize { signer: addr(1), state_bump: 254, vault_bump: 253 }.initialize();
    let mut ctx = Withdraw { signer: addr(1), signer_lamports: 600, vault_lamports: 400, state };
    ctx.withdraw(150).unwrap();
    assert_eq!(ctx.signer_lamports, 750);
    assert_eq!(ctx.vault_lamports, 250);
}

#[test]
fn vault_withdraw_rejects_insufficient_vault_balance() {
    let state = Initialize { signer: addr(1), state_bump: 254, vault_bump: 253 }.initialize();
    let mut ctx = Withdraw { signer: addr(1), signer_lamports: 0, vault_lamports: 100, state };
    assert!(matches!(ctx.withdraw(101), Err(VaultError::InsufficientBalance)));
    assert_eq!(ctx.vault_lamports, 100);
}

#[test]
fn vault_deposit_overflow_is_rejected() {
    let state = Initialize { signer: addr(1), state_bump: 254, vault_bump: 253 }.initialize();
    let mut ctx = Deposit {
        signer: addr(1),
        signer_lamports: 10,
        vault_lamports: u64::MAX,
        state,
    };
    assert!(matches!(ctx.deposit(1), Err(VaultError::Overflow)));
    assert_eq!(ctx.vault_lamports, u64::MAX);
    assert_eq!(ctx.signer_lamports, 10);
}

use onchain_core::amm::{AmmError, Deposit, Initialize, Pool, Swap, Withdraw};
use onchain_core::keys::Address;
use onchain_core::token::{TokenAccount, TokenError, TokenMint};

fn addr(n: u64) -> Address {
    Address { w0: n, w1: 0, w2: 0, w3: 0 }
}

fn token_acct(mint: Address, authority: Address, amount: u64) -> TokenAccount {
    TokenAccount { mint, authority, amount, delegate: None, delegated_amount: 0, frozen: false, rent: 0 }
}

fn fresh_pool(fee: u16) -> Pool {
    let init = Initialize {
        signer: addr(1),
        mint_x: addr(10),
        mint_y: addr(11),
        config_addr: addr(20),
        lp_mint_addr: addr(21),
        config_bump: 254,
        lp_bump: 253,
    };
    init.initialize(7, None, fee).unwrap()
}

fn deposit_ctx(pool: Pool, x: u64, y: u64, lp: u64) -> Deposit {
    Deposit {
        signer: addr(1),
        mint_x: TokenMint { supply: 1 << 40, decimals: 6, mint_authority: addr(30) },
        mint_y: TokenMint { supply: 1 << 40, decimals: 6, mint_authority: addr(31) },
        user_x: token_acct(pool.config.mint_x, addr(1), x),
        user_y: token_acct(pool.config.mint_y, addr(1), y),
        user_lp: token_acct(pool.lp_mint_addr, addr(1), lp),
        pool,
    }
}

#[test]
fn amm_initialize_rejects_invalid_fee() {
    let init = Initialize {
        signer: addr(1),
        mint_x: addr(10),
        mint_y: addr(11),
        config_addr: addr(20),
        lp_mint_addr: addr(21),
        config_bump: 254,
        lp_bump: 253,
    };
    assert!(matches!(init.initialize(7, None, 10_001), Err(AmmError::InvalidFee)));
    let pool = init.initialize(7, Some(addr(5)), 10_000).unwrap();
    assert_eq!(pool.config.fee, 10_000);
    assert_eq!(pool.config.config_bump, 254);
    assert_eq!(pool.config.lp_bump, 253);
    assert!(!pool.config.locked);
    assert_eq!(pool.mint_lp.supply, 0);
    assert_eq!(pool.vault_x.amount, 0);
    assert_eq!(pool.vault_y.amount, 0);
}

#[test]
fn amm_bootstrap_deposit_takes_maxima() {
    let pool = fresh_pool(30);
    let mut ctx = deposit_ctx(pool, 2_000_000, 5_000_000, 0);
    ctx.deposit(1_000_000, 1_000_000, 4_000_000).unwrap();
    assert_eq!(ctx.pool.vault_x.amount, 1_000_000);
    assert_eq!(ctx.pool.vault_y.amount, 4_000_000);
    assert_eq!(ctx.pool.mint_lp.supply, 1_000_000);
    assert_eq!(ctx.user_x.amount, 1_000_000);
    assert_eq!(ctx.user_y.amount, 1_000_000);
    assert_eq!(ctx.user_lp.amount, 1_000_000);
}

#[test]
fn amm_swap_with_fee_30_bps() {
    // Bootstrap (1_000_000, 4_000_000), then swap 10_000 X in with a 30 bps
    // fee: the curve credits 9_970 and pays out
    // (4_000_000 * 9_970) / 1_009_970 = 39_486.
    let pool = fresh_pool(30);
    let mut dep = deposit_ctx(pool, 1_000_000, 4_000_000, 0);
    dep.deposit(1_000_000, 1_000_000, 4_000_000).unwrap();
    let mut swap = Swap {
        signer: addr(2),
        pool: dep.pool,
        mint_x: dep.mint_x,
        mint_y: dep.mint_y,
        user_x: token_acct(dep.pool.config.mint_x, addr(2), 10_000),
        user_y: token_acct(dep.pool.config.mint_y, addr(2), 0),
    };
    swap.swap(true, 10_000, 0).unwrap();
    assert_eq!(swap.user_x.amount, 0);
    assert_eq!(swap.user_y.amount, 39_486);
    assert_eq!(swap.pool.vault_x.amount, 1_010_000);
    assert_eq!(swap.pool.vault_y.amount, 3_960_514);
    // Curve law: the product of the reserves grew strictly.
    let before = 1_000_000u128 * 4_000_000u128;
    let after = 1_010_000u128 * 3_960_514u128;
    assert!(after > before);
}

#[test]
fn amm_swap_without_fee_keeps_product() {
    let pool = fresh_pool(0);
    let mut dep = deposit_ctx(pool, 1_000_000, 1_000_000, 0);
    dep.deposit(1_000_000, 1_000_000, 1_000_000).unwrap();
    let mut swap = Swap {
        signer: addr(2),
        pool: dep.pool,
        mint_x: dep.mint_x,
        mint_y: dep.mint_y,
        user_x: token_acct(dep.pool.config.mint_x, addr(2), 50_000),
        user_y: token_acct(dep.pool.config.mint_y, addr(2), 0),
    };
    swap.swap(true, 50_000, 0).unwrap();
    let before = 1_000_000u128 * 1_000_000u128;
    let after =
        (swap.pool.vault_x.amount as u128) * (swap.pool.vault_y.amount as u128);
    assert!(after >= before);
}

#[test]
fn amm_swap_error_cases() {
    let pool = fresh_pool(30);
    let mut dep = deposit_ctx(pool, 1_000_000, 4_000_000, 0);
    dep.deposit(1_000_000, 1_000_000, 4_000_000).unwrap();
    let mk = |pool: Pool| Swap {
        signer: addr(2),
        pool,
        mint_x: dep.mint_x,
        mint_y: dep.mint_y,
        user_x: token_acct(pool.config.mint_x, addr(2), 10_000),
        user_y: token_acct(pool.config.mint_y, addr(2), 0),
    };
    let mut s = mk(dep.pool);
    assert!(matches!(s.swap(true, 0, 0), Err(AmmError::ZeroAmount)));
    let mut locked_pool = dep.pool;
    locked_pool.config.locked = true;
    let mut s = mk(locked_pool);
    assert!(matches!(s.swap(true, 10_000, 0), Err(AmmError::PoolLocked)));
    let mut s = mk(dep.pool);
    assert!(matches!(s.swap(true, 10_000, 40_000), Err(AmmError::SlippageOut)));
    assert_eq!(s.user_x.amount, 10_000);
    assert_eq!(s.pool.vault_x.amount, 1_000_000);
    let mut s = mk(dep.pool);
    s.user_x.amount = 5_000;
    assert!(matches!(
        s.swap(true, 10_000, 0),
        Err(AmmError::Token(TokenError::InsufficientBalance))
    ));
}

#[test]
fn amm_swap_tiny_pool_insufficient_liquidity() {
    let mut pool = fresh_pool(0);
    pool.vault_x.amount = 1;
    pool.vault_y.amount = 1;
    pool.mint_lp.supply = 1;
    let mut s = Swap {
        signer: addr(2),
        pool,
        mint_x: TokenMint { supply: 10, decimals: 6, mint_authority: addr(30) },
        mint_y: TokenMint { supply: 10, decimals: 6, mint_authority: addr(31) },
        user_x: token_acct(pool.config.mint_x, addr(2), 10),
        user_y: token_acct(pool.config.mint_y, addr(2), 0),
    };
    assert!(matches!(s.swap(true, 1, 0), Err(AmmError::InsufficientLiquidity)));
}

#[test]
fn amm_deposit_proportionality() {
    // Non-bootstrap deposit: required amounts are rounded up, so both
    // reserve/supply ratios move in the pool's favour.
    let mut pool = fresh_pool(30);
    pool.vault_x.amount = 1_003;
    pool.vault_y.amount = 2_001;
    pool.mint_lp.supply = 1_000;
    let mut ctx = deposit_ctx(pool, 10_000, 10_000, 0);
    ctx.deposit(333, 10_000, 10_000).unwrap();
    // dx = ceil(333 * 1_003 / 1_000) = 334, dy = ceil(333 * 2_001 / 1_000) = 667.
    assert_eq!(ctx.pool.vault_x.amount, 1_003 + 334);
    assert_eq!(ctx.pool.vault_y.amount, 2_001 + 667);
    assert_eq!(ctx.pool.mint_lp.supply, 1_333);
    assert!((1_003u128 + 334) * 1_000 >= 1_003u128 * 1_333);
    assert!((2_001u128 + 667) * 1_000 >= 2_001u128 * 1_333);
}

#[test]
fn amm_deposit_slippage() {
    let mut pool = fresh_pool(30);
    pool.vault_x.amount = 1_000;
    pool.vault_y.amount = 2_000;
    pool.mint_lp.supply = 1_000;
    let mut ctx = deposit_ctx(pool, 10_000, 10_000, 0);
    assert!(matches!(ctx.deposit(500, 499, 10_000), Err(AmmError::SlippageX)));
    assert!(matches!(ctx.deposit(500, 500, 999), Err(AmmError::SlippageY)));
    assert_eq!(ctx.pool.vault_x.amount, 1_000);
    assert_eq!(ctx.user_x.amount, 10_000);
}

#[test]
fn amm_deposit_withdraw_round_trip() {
    // Depositing and then withdrawing the same LP amount returns the user
    // to within one unit per asset.
    let mut pool = fresh_pool(30);
    pool.vault_x.amount = 1_000_003;
    pool.vault_y.amount = 2_000_001;
    pool.mint_lp.supply = 1_000_000;
    let start_x = 10_000_000u64;
    let start_y = 10_000_000u64;
    let mut dep = deposit_ctx(pool, start_x, start_y, 0);
    dep.deposit(300_000, 1_000_000, 1_000_000).unwrap();
    let mut wd = Withdraw {
        signer: addr(1),
        pool: dep.pool,
        mint_x: dep.mint_x,
        mint_y: dep.mint_y,
        user_x: dep.user_x,
        user_y: dep.user_y,
        user_lp: dep.user_lp,
    };
    wd.withdraw(300_000, 0, 0).unwrap();
    assert_eq!(wd.user_lp.amount, 0);
    assert!(start_x - wd.user_x.amount <= 1);
    assert!(start_y - wd.user_y.amount <= 1);
    assert_eq!(wd.user_x.amount, start_x - 1);
    assert_eq!(wd.user_y.amount, start_y - 1);
}

#[test]
fn amm_withdraw_floors_and_slippage() {
    let mut pool = fresh_pool(30);
    pool.vault_x.amount = 1_003;
    pool.vault_y.amount = 2_001;
    pool.mint_lp.supply = 1_000;
    let mut ctx = Withdraw {
        signer: addr(1),
        pool,
        mint_x: TokenMint { supply: 1 << 40, decimals: 6, mint_authority: addr(30) },
        mint_y: TokenMint { supply: 1 << 40, decimals: 6, mint_authority: addr(31) },
        user_x: token_acct(pool.config.mint_x, addr(1), 0),
        user_y: token_acct(pool.config.mint_y, addr(1), 0),
        user_lp: token_acct(pool.lp_mint_addr, addr(1), 1_000),
    };
    assert!(matches!(ctx.withdraw(333, 334, 0), Err(AmmError::SlippageX)));
    ctx.withdraw(333, 0, 0).unwrap();
    // dx = floor(333 * 1_003 / 1_000) = 333, dy = floor(333 * 2_001 / 1_000) = 666.
    assert_eq!(ctx.user_x.amount, 333);
    assert_eq!(ctx.user_y.amount, 666);
    assert_eq!(ctx.pool.mint_lp.supply, 667);
    assert_eq!(ctx.user_lp.amount, 667);
}

#[test]
fn amm_locked_pool_rejects_deposit_and_withdraw() {
    let mut pool = fresh_pool(30);
    pool.config.locked = true;
    let mut ctx = deposit_ctx(pool, 1_000, 1_000, 0);
    assert!(matches!(ctx.deposit(100, 100, 100), Err(AmmError::PoolLocked)));
    let mut wd = Withdraw {
        signer: addr(1),
        pool,
        mint_x: ctx.mint_x,
        mint_y: ctx.mint_y,
        user_x: ctx.user_x,
        user_y: ctx.user_y,
        user_lp: ctx.user_lp,
    };
    assert!(matches!(wd.withdraw(100, 0, 0), Err(AmmError::PoolLocked)));
}

#[test]
fn amm_deposit_overflow_and_division_by_zero() {
    // A pool with supply 0 but non-empty vaults is not a bootstrap: the
    // share computation has no supply to divide by.
    let mut pool = fresh_pool(30);
    pool.vault_x.amount = 10;
    pool.vault_y.amount = 10;
    pool.mint_lp.supply = 0;
    let mut ctx = deposit_ctx(pool, 100, 100, 0);
    assert!(matches!(ctx.deposit(1, 100, 100), Err(AmmError::DivisionByZero)));
    // A share that does not fit in 64 bits is an overflow.
    let mut pool = fresh_pool(30);
    pool.vault_x.amount = u64::MAX;
    pool.vault_y.amount = 1;
    pool.mint_lp.supply = 1;
    let mut ctx = deposit_ctx(pool, 100, 100, 0);
    assert!(matches!(ctx.deposit(2, u64::MAX, u64::MAX), Err(AmmError::Overflow)));
}

#[test]
fn amm_withdraw_underflow_on_excess_supply_claim() {
    // Burning more LP than the supply holds is an underflow, caught before
    // any transfer.
    let mut pool = fresh_pool(30);
    pool.vault_x.amount = 0;
    pool.vault_y.amount = 0;
    pool.mint_lp.supply = 500;
    let mut ctx = Withdraw {
        signer: addr(1),
        pool,
        mint_x: TokenMint { supply: 1 << 40, decimals: 6, mint_authority: addr(30) },
        mint_y: TokenMint { supply: 1 << 40, decimals: 6, mint_authority: addr(31) },
        user_x: token_acct(pool.config.mint_x, addr(1), 0),
        user_y: token_acct(pool.config.mint_y, addr(1), 0),
        user_lp: token_acct(pool.lp_mint_addr, addr(1), 1_000),
    };
    assert!(matches!(
        ctx.withdraw(600, 0, 0),
        Err(AmmError::Token(TokenError::Underflow))
    ));
    assert_eq!(ctx.pool.mint_lp.supply, 500);
    assert_eq!(ctx.user_lp.amount, 1_000);
}

#[test]
fn amm_swap_y_side_mirrors_x_side() {
    // Paying into the Y side draws X out under the same pricing.
    let pool = fresh_pool(30);
    let mut dep = deposit_ctx(pool, 4_000_000, 1_000_000, 0);
    dep.deposit(1_000_000, 4_000_000, 1_000_000).unwrap();
    let mut swap = Swap {
        signer: addr(2),
        pool: dep.pool,
        mint_x: dep.mint_x,
        mint_y: dep.mint_y,
        user_x: token_acct(dep.pool.config.mint_x, addr(2), 0),
        user_y: token_acct(dep.pool.config.mint_y, addr(2), 10_000),
    };
    swap.swap(false, 10_000, 0).unwrap();
    assert_eq!(swap.user_y.amount, 0);
    assert_eq!(swap.user_x.amount, 39_486);
    assert_eq!(swap.pool.vault_y.amount, 1_010_000);
    assert_eq!(swap.pool.vault_x.amount, 3_960_514);
    let before = 4_000_000u128 * 1_000_000u128;
    let after = 3_960_514u128 * 1_010_000u128;
    assert!(after > before);
}

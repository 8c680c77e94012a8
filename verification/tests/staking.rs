use onchain_core::keys::Address;
use onchain_core::staking::{
    InitializeConfig, InitializeUser, Stake, StakeError, Unstake, UserAccount,
};
use onchain_core::token::TokenAccount;

fn addr(n: u64) -> Address {
    Address { w0: n, w1: 0, w2: 0, w3: 0 }
}

fn token_acct(mint: Address, authority: Address, amount: u64) -> TokenAccount {
    TokenAccount { mint, authority, amount, delegate: None, delegated_amount: 0, frozen: false, rent: 0 }
}

const DAY: i64 = 86_400;

#[test]
fn staking_initialize_config_and_user() {
    let init = InitializeConfig { admin: addr(1), config_addr: addr(20), bump: 254, rewards_bump: 253 };
    let (config, rewards) = init.initialize_config(10, 3, 7);
    assert_eq!(config.points_per_stake, 10);
    assert_eq!(config.max_stake, 3);
    assert_eq!(config.freeze_period, 7);
    assert_eq!(config.bump, 254);
    assert_eq!(config.rewards_bump, 253);
    assert_eq!(rewards.decimals, 6);
    assert_eq!(rewards.mint_authority, addr(20));
    let user = InitializeUser { user: addr(2), bump: 250 }.initialize_user();
    assert_eq!(user.amount_staked, 0);
    assert_eq!(user.points, 0);
    assert_eq!(user.bump, 250);
}

fn stake_ctx(amount_staked: u8, max_stake: u8) -> Stake {
    let init = InitializeConfig { admin: addr(1), config_addr: addr(20), bump: 254, rewards_bump: 253 };
    let (config, _) = init.initialize_config(10, max_stake, 7);
    Stake {
        user: addr(2),
        mint: addr(30),
        mint_ata: token_acct(addr(30), addr(2), 1),
        config,
        stake_addr: addr(40),
        stake_bump: 249,
        user_account: UserAccount { amount_staked, points: 0, bump: 250 },
        now: 1_000,
    }
}

#[test]
fn staking_stake_freezes_and_counts() {
    let mut ctx = stake_ctx(0, 3);
    let rec = ctx.stake().unwrap();
    assert_eq!(rec.owner, addr(2));
    assert_eq!(rec.mint, addr(30));
    assert_eq!(rec.staked_at, 1_000);
    assert_eq!(rec.bump, 249);
    assert_eq!(ctx.mint_ata.delegate, Some(addr(40)));
    assert!(ctx.mint_ata.frozen);
    assert_eq!(ctx.user_account.amount_staked, 1);
}

#[test]
fn staking_stake_rejects_at_max() {
    let mut ctx = stake_ctx(3, 3);
    assert!(matches!(ctx.stake(), Err(StakeError::MaxStakeReached)));
    assert!(!ctx.mint_ata.frozen);
    assert_eq!(ctx.user_account.amount_staked, 3);
}

fn unstake_ctx(staked_at: i64, now: i64) -> Unstake {
    let init = InitializeConfig { admin: addr(1), config_addr: addr(20), bump: 254, rewards_bump: 253 };
    let (config, _) = init.initialize_config(10, 3, 7);
    let mut ata = token_acct(addr(30), addr(2), 1);
    ata.delegate = Some(addr(40));
    ata.frozen = true;
    Unstake {
        user: addr(2),
        mint: addr(30),
        mint_ata: ata,
        config,
        stake_addr: addr(40),
        stake_account: onchain_core::staking::StakeAccount {
            owner: addr(2),
            mint: addr(30),
            staked_at,
            bump: 249,
        },
        user_account: UserAccount { amount_staked: 1, points: 5, bump: 250 },
        now,
    }
}

#[test]
fn staking_unstake_fails_one_day_early() {
    // elapsed_days = 6 < freeze_period = 7.
    let mut ctx = unstake_ctx(0, 7 * DAY - 1);
    assert!(matches!(ctx.unstake(), Err(StakeError::FreezePeriodNotPassed)));
    assert!(ctx.mint_ata.frozen);
    assert_eq!(ctx.user_account.points, 5);
    assert_eq!(ctx.user_account.amount_staked, 1);
}

#[test]
fn staking_unstake_at_freeze_period_awards_points() {
    // elapsed_days = 7 exactly: awards 7 * 10 points, thaws and revokes.
    let mut ctx = unstake_ctx(0, 7 * DAY + 1);
    ctx.unstake().unwrap();
    assert_eq!(ctx.user_account.points, 5 + 70);
    assert_eq!(ctx.user_account.amount_staked, 0);
    assert!(!ctx.mint_ata.frozen);
    assert_eq!(ctx.mint_ata.delegate, None);
}

#[test]
fn staking_unstake_awards_per_elapsed_day() {
    // elapsed_days = 9: more days staked, more points.
    let mut ctx = unstake_ctx(3 * DAY, 12 * DAY + 5);
    ctx.unstake().unwrap();
    assert_eq!(ctx.user_account.points, 5 + 90);
}

#[test]
fn staking_unstake_points_overflow_is_rejected() {
    let mut ctx = unstake_ctx(0, 7 * DAY);
    ctx.user_account.points = u32::MAX - 10;
    assert!(matches!(ctx.unstake(), Err(StakeError::Overflow)));
    assert_eq!(ctx.user_account.points, u32::MAX - 10);
    assert!(ctx.mint_ata.frozen);
}

#[test]
fn staking_unstake_with_zero_staked_is_underflow() {
    let mut ctx = unstake_ctx(0, 7 * DAY);
    ctx.user_account.amount_staked = 0;
    assert!(matches!(ctx.unstake(), Err(StakeError::Underflow)));
    assert!(ctx.mint_ata.frozen);
}

#[test]
fn staking_stake_delegates_one_unit() {
    let mut ctx = stake_ctx(0, 3);
    ctx.stake().unwrap();
    assert_eq!(ctx.mint_ata.delegated_amount, 1);
    let mut un = unstake_ctx(0, 7 * DAY);
    un.mint_ata.delegated_amount = 1;
    un.unstake().unwrap();
    assert_eq!(un.mint_ata.delegated_amount, 0);
}

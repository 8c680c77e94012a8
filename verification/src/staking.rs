//! NFT staking with a freeze-period reward accrual.
//!
//! Staking delegates one NFT unit to the stake record's derived address and
//! freezes the delegated token account; unstaking is allowed once the
//! configured freeze period (in days of 86 400 seconds) has elapsed, awards
//! points proportional to the elapsed days, thaws the account and revokes
//! the delegate.

use vstd::prelude::*;

use crate::keys::Address;
use crate::token::{approve, freeze_delegated, revoke, thaw_delegated, TokenAccount, TokenError, TokenMint};

verus! {

/// Errors of the staking program.
#[derive(Clone, Copy, PartialEq, Eq, Structural, Debug)]
pub enum StakeError {
    MaxStakeReached,
    FreezePeriodNotPassed,
    Overflow,
    Underflow,
    Token(TokenError),
}

/// The staking program's configuration record.
#[derive(Clone, Copy, PartialEq, Eq, Structural, Debug)]
pub struct StakeConfig {
    pub points_per_stake: u8,
    pub max_stake: u8,
    pub freeze_period: u32,
    pub rewards_bump: u8,
    pub bump: u8,
}

/// Per-user counters.
#[derive(Clone, Copy, PartialEq, Eq, Structural, Debug)]
pub struct UserAccount {
    pub amount_staked: u8,
    pub points: u32,
    pub bump: u8,
}

/// Per-(user, NFT) stake record.
#[derive(Clone, Copy, PartialEq, Eq, Structural, Debug)]
pub struct StakeAccount {
    pub owner: Address,
    pub mint: Address,
    pub staked_at: i64,
    pub bump: u8,
}

/// Seconds in a day.
pub const SECONDS_PER_DAY: i64 = 86400;

/// Accounts of the configuration-creation instruction.
pub struct InitializeConfig {
    pub admin: Address,
    pub config_addr: Address,
    pub bump: u8,
    pub rewards_bump: u8,
}

impl InitializeConfig {
    /// Create the configuration record and its rewards mint (6 decimals,
    /// authority-bound to the configuration address).
    pub fn initialize_config(&self, points_per_stake: u8, max_stake: u8, freeze_period: u32) -> (r:
        (StakeConfig, TokenMint))
        ensures
            r.0 == (StakeConfig {
                points_per_stake,
                max_stake,
                freeze_period,
                rewards_bump: self.rewards_bump,
                bump: self.bump,
            }),
            r.1 == (TokenMint { supply: 0, decimals: 6, mint_authority: self.config_addr }),
    {
        (
            StakeConfig {
                points_per_stake,
                max_stake,
                freeze_period,
                rewards_bump: self.rewards_bump,
                bump: self.bump,
            },
            TokenMint { supply: 0, decimals: 6, mint_authority: self.config_addr },
        )
    }
}

/// Accounts of the user-record creation instruction.
pub struct InitializeUser {
    pub user: Address,
    pub bump: u8,
}

impl InitializeUser {
    /// Create the user record with zeroed counters.
    pub fn initialize_user(&self) -> (r: UserAccount)
        ensures
            r == (UserAccount { amount_staked: 0, points: 0, bump: self.bump }),
    {
        UserAccount { amount_staked: 0, points: 0, bump: self.bump }
    }
}

/// Accounts of the stake instruction.
pub struct Stake {
    pub user: Address,
    pub mint: Address,
    pub mint_ata: TokenAccount,
    pub config: StakeConfig,
    pub stake_addr: Address,
    pub stake_bump: u8,
    pub user_account: UserAccount,
    pub now: i64,
}

impl Stake {
    pub open spec fn wf(self) -> bool {
        &&& self.mint_ata.mint == self.mint
        &&& self.mint_ata.authority == self.user
        &&& !self.mint_ata.frozen
    }

    /// Stake the NFT: delegate one unit of the user's token account to the
    /// stake record's address, freeze the delegated account, persist the
    /// stake record with the current timestamp and count the stake.
    pub fn stake(&mut self) -> (r: Result<StakeAccount, StakeError>)
        requires
            old(self).wf(),
        ensures
            match r {
                Ok(rec) => old(self).user_account.amount_staked < old(self).config.max_stake && rec
                    == (StakeAccount {
                    owner: old(self).user,
                    mint: old(self).mint,
                    staked_at: old(self).now,
                    bump: old(self).stake_bump,
                }) && *final(self) == (Stake {
                    mint_ata: TokenAccount {
                        delegate: Some(old(self).stake_addr),
                        delegated_amount: 1,
                        frozen: true,
                        ..old(self).mint_ata
                    },
                    user_account: UserAccount {
                        amount_staked: (old(self).user_account.amount_staked + 1) as u8,
                        ..old(self).user_account
                    },
                    ..*old(self)
                }),
                Err(e) => old(self).user_account.amount_staked >= old(self).config.max_stake && e
                    == StakeError::MaxStakeReached && *final(self) == *old(self),
            },
    {
        if self.user_account.amount_staked >= self.config.max_stake {
            return Err(StakeError::MaxStakeReached);
        }
        let stake_addr = self.stake_addr;
        let user = self.user;
        if let Err(e) = approve(&mut self.mint_ata, &stake_addr, &user, 1) {
            return Err(StakeError::Token(e));
        }
        if let Err(e) = freeze_delegated(&mut self.mint_ata, &stake_addr) {
            return Err(StakeError::Token(e));
        }
        self.user_account.amount_staked = self.user_account.amount_staked + 1;
        Ok(
            StakeAccount {
                owner: self.user,
                mint: self.mint,
                staked_at: self.now,
                bump: self.stake_bump,
            },
        )
    }
}

/// Accounts of the unstake instruction.
pub struct Unstake {
    pub user: Address,
    pub mint: Address,
    pub mint_ata: TokenAccount,
    pub config: StakeConfig,
    pub stake_addr: Address,
    pub stake_account: StakeAccount,
    pub user_account: UserAccount,
    pub now: i64,
}

impl Unstake {
    pub open spec fn wf(self) -> bool {
        &&& self.mint_ata.mint == self.mint
        &&& self.mint_ata.authority == self.user
        &&& self.mint_ata.frozen
        &&& self.mint_ata.delegate == Some(self.stake_addr)
        &&& self.stake_account.owner == self.user
        &&& self.stake_account.mint == self.mint
    }

    /// Whole days elapsed since the stake.
    pub open spec fn spec_elapsed_days(self) -> int {
        (self.now - self.stake_account.staked_at) / (SECONDS_PER_DAY as int)
    }

    /// The points this unstake awards.
    pub open spec fn spec_award(self) -> int {
        self.spec_elapsed_days() * self.config.points_per_stake
    }

    /// The error `unstake` reports, if any, in check order.
    pub open spec fn spec_unstake_err(self) -> Option<StakeError> {
        if self.spec_elapsed_days() < self.config.freeze_period {
            Some(StakeError::FreezePeriodNotPassed)
        } else if self.user_account.points + self.spec_award() > u32::MAX {
            Some(StakeError::Overflow)
        } else if self.user_account.amount_staked == 0 {
            Some(StakeError::Underflow)
        } else {
            None
        }
    }

    /// Unstake: allowed exactly once the elapsed whole days reach the
    /// configured freeze period. Awards `elapsed_days · points_per_stake`
    /// points, thaws the delegated account, revokes the delegate and
    /// uncounts the stake.
    pub fn unstake(&mut self) -> (r: Result<(), StakeError>)
        requires
            old(self).wf(),
            old(self).stake_account.staked_at <= old(self).now,
            old(self).now - old(self).stake_account.staked_at <= i64::MAX,
        ensures
            match r {
                Ok(_) => old(self).spec_unstake_err() is None && *final(self) == (Unstake {
                    mint_ata: TokenAccount {
                        delegate: None,
                        delegated_amount: 0,
                        frozen: false,
                        ..old(self).mint_ata
                    },
                    user_account: UserAccount {
                        amount_staked: (old(self).user_account.amount_staked - 1) as u8,
                        points: (old(self).user_account.points + old(self).spec_award()) as u32,
                        ..old(self).user_account
                    },
                    ..*old(self)
                }),
                Err(e) => old(self).spec_unstake_err() == Some(e) && *final(self) == *old(self),
            },
    {
        let diff: i64 = self.now - self.stake_account.staked_at;
        let elapsed: i64 = diff / SECONDS_PER_DAY;
        if elapsed < self.config.freeze_period as i64 {
            return Err(StakeError::FreezePeriodNotPassed);
        }
        proof {
            vstd::arithmetic::div_mod::lemma_div_is_ordered(diff as int, i64::MAX as int, 86400);
            vstd::arithmetic::div_mod::lemma_div_pos_is_pos(diff as int, 86400);
            assert((elapsed as int) * (self.config.points_per_stake as int) <= 106751991167300
                * 255) by (nonlinear_arith)
                requires
                    0 <= elapsed as int <= 106751991167300,
                    0 <= self.config.points_per_stake as int <= 255,
            ;
        }
        let award: u64 = (elapsed as u64) * (self.config.points_per_stake as u64);
        if award > (u32::MAX as u64) - (self.user_account.points as u64) {
            return Err(StakeError::Overflow);
        }
        if self.user_account.amount_staked == 0 {
            return Err(StakeError::Underflow);
        }
        let stake_addr = self.stake_addr;
        let user = self.user;
        if let Err(e) = thaw_delegated(&mut self.mint_ata, &stake_addr) {
            return Err(StakeError::Token(e));
        }
        if let Err(e) = revoke(&mut self.mint_ata, &user) {
            return Err(StakeError::Token(e));
        }
        self.user_account.points = self.user_account.points + (award as u32);
        self.user_account.amount_staked = self.user_account.amount_staked - 1;
        Ok(())
    }
}

} // verus!

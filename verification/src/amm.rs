//! Constant-product automated market maker.
//!
//! A pool holds reserves of two token classes X and Y, a liquidity-provider
//! mint, and a fee in basis points applied to swap input. Deposit rounds the
//! required token amounts up and withdraw rounds the returned amounts down,
//! both in favour of the pool; swap preserves the product of the reserves.

use vstd::prelude::*;

use vstd::arithmetic::div_mod::{
    lemma_div_is_ordered, lemma_div_multiples_vanish_fancy, lemma_remainder_lower,
    lemma_remainder_upper,
};

use crate::keys::Address;
use crate::math::{mul_div_ceil, mul_div_floor, spec_bps, spec_mul_div_ceil, spec_mul_div_floor, ArithError};
use crate::token::{mint_to, burn, transfer_checked, TokenAccount, TokenError, TokenMint};

verus! {

/// Errors of the market-maker program.
#[derive(Clone, Copy, PartialEq, Eq, Structural, Debug)]
pub enum AmmError {
    InvalidFee,
    PoolLocked,
    ZeroAmount,
    SlippageX,
    SlippageY,
    SlippageOut,
    InsufficientLiquidity,
    Overflow,
    Underflow,
    DivisionByZero,
    Token(TokenError),
}

pub open spec fn spec_arith_to_amm(e: ArithError) -> AmmError {
    match e {
        ArithError::Overflow => AmmError::Overflow,
        ArithError::Underflow => AmmError::Underflow,
        ArithError::DivisionByZero => AmmError::DivisionByZero,
    }
}

fn arith_to_amm(e: ArithError) -> (r: AmmError)
    ensures
        r == spec_arith_to_amm(e),
{
    match e {
        ArithError::Overflow => AmmError::Overflow,
        ArithError::Underflow => AmmError::Underflow,
        ArithError::DivisionByZero => AmmError::DivisionByZero,
    }
}

/// The pool's persistent configuration record.
#[derive(Clone, Copy, PartialEq, Eq, Structural, Debug)]
pub struct Config {
    pub seed: u64,
    pub authority: Option<Address>,
    pub mint_x: Address,
    pub mint_y: Address,
    pub fee: u16,
    pub config_bump: u8,
    pub lp_bump: u8,
    pub locked: bool,
}

impl Config {
    pub open spec fn wf(self) -> bool {
        self.mint_x != self.mint_y && self.fee <= 10000
    }
}

/// A pool: its configuration record, LP mint and the two vaults, all
/// authority-bound to the configuration record's derived address.
#[derive(Clone, Copy, PartialEq, Eq, Structural, Debug)]
pub struct Pool {
    pub config: Config,
    pub config_addr: Address,
    pub lp_mint_addr: Address,
    pub mint_lp: TokenMint,
    pub vault_x: TokenAccount,
    pub vault_y: TokenAccount,
}

impl Pool {
    pub open spec fn wf(self) -> bool {
        &&& self.config.wf()
        &&& self.vault_x.mint == self.config.mint_x
        &&& self.vault_y.mint == self.config.mint_y
        &&& self.vault_x.authority == self.config_addr
        &&& self.vault_y.authority == self.config_addr
        &&& !self.vault_x.frozen
        &&& !self.vault_y.frozen
        &&& self.mint_lp.mint_authority == self.config_addr
        &&& self.mint_lp.decimals == 6
    }

    /// X reserve.
    pub open spec fn x(self) -> int {
        self.vault_x.amount as int
    }

    /// Y reserve.
    pub open spec fn y(self) -> int {
        self.vault_y.amount as int
    }

    /// LP supply.
    pub open spec fn lp(self) -> int {
        self.mint_lp.supply as int
    }

    /// The pool has never received a deposit.
    pub open spec fn spec_is_bootstrap(self) -> bool {
        self.lp() == 0 && self.x() == 0 && self.y() == 0
    }
}

/// Accounts of the pool-creation instruction.
pub struct Initialize {
    pub signer: Address,
    pub mint_x: Address,
    pub mint_y: Address,
    pub config_addr: Address,
    pub lp_mint_addr: Address,
    pub config_bump: u8,
    pub lp_bump: u8,
}

impl Initialize {
    /// Create the pool: the configuration record, an LP mint with 6 decimals
    /// and two empty vaults, all authority-bound to the configuration
    /// address. The persisted bumps are exactly the ones handed in by the
    /// address derivation.
    pub fn initialize(&self, seed: u64, authority: Option<Address>, fee: u16) -> (r: Result<
        Pool,
        AmmError,
    >)
        requires
            self.mint_x != self.mint_y,
        ensures
            match r {
                Ok(p) => fee <= 10000 && p.wf() && p.config == (Config {
                    seed,
                    authority,
                    mint_x: self.mint_x,
                    mint_y: self.mint_y,
                    fee,
                    config_bump: self.config_bump,
                    lp_bump: self.lp_bump,
                    locked: false,
                }) && p.config_addr == self.config_addr && p.lp_mint_addr == self.lp_mint_addr
                    && p.spec_is_bootstrap() && p.vault_x.rent == 0 && p.vault_y.rent == 0
                    && p.vault_x.delegate is None && p.vault_y.delegate is None
                    && p.vault_x.delegated_amount == 0 && p.vault_y.delegated_amount == 0,
                Err(e) => fee > 10000 && e == AmmError::InvalidFee,
            },
    {
        if fee > 10000 {
            return Err(AmmError::InvalidFee);
        }
        let config = Config {
            seed,
            authority,
            mint_x: self.mint_x,
            mint_y: self.mint_y,
            fee,
            config_bump: self.config_bump,
            lp_bump: self.lp_bump,
            locked: false,
        };
        Ok(
            Pool {
                config,
                config_addr: self.config_addr,
                lp_mint_addr: self.lp_mint_addr,
                mint_lp: TokenMint { supply: 0, decimals: 6, mint_authority: self.config_addr },
                vault_x: TokenAccount {
                    mint: self.mint_x,
                    authority: self.config_addr,
                    amount: 0,
                    delegate: None,
                    delegated_amount: 0,
                    frozen: false,
                    rent: 0,
                },
                vault_y: TokenAccount {
                    mint: self.mint_y,
                    authority: self.config_addr,
                    amount: 0,
                    delegate: None,
                    delegated_amount: 0,
                    frozen: false,
                    rent: 0,
                },
            },
        )
    }
}

/// `⌈n/d⌉·d` lies in `[n, n + d - 1]`.
pub proof fn lemma_ceil_div_bounds(n: int, d: int)
    requires
        d > 0,
        n >= 0,
    ensures
        d * ((n + d - 1) / d) >= n,
        d * ((n + d - 1) / d) <= n + d - 1,
        (n + d - 1) / d >= 0,
{
    let q = (n + d - 1) / d;
    lemma_remainder_lower(n + d - 1, d);
    lemma_remainder_upper(n + d - 1, d);
    vstd::arithmetic::div_mod::lemma_div_pos_is_pos(n + d - 1, d);
    assert(q * d == d * q) by (nonlinear_arith);
}

/// `⌊n/d⌋·d` lies in `(n - d, n]`.
pub proof fn lemma_floor_div_bounds(n: int, d: int)
    requires
        d > 0,
        n >= 0,
    ensures
        d * (n / d) <= n,
        d * (n / d) > n - d,
        n / d >= 0,
{
    let q = n / d;
    lemma_remainder_lower(n, d);
    lemma_remainder_upper(n, d);
    vstd::arithmetic::div_mod::lemma_div_pos_is_pos(n, d);
    assert(q * d == d * q) by (nonlinear_arith);
}

/// Accounts of the liquidity-deposit instruction.
pub struct Deposit {
    pub signer: Address,
    pub pool: Pool,
    pub mint_x: TokenMint,
    pub mint_y: TokenMint,
    pub user_x: TokenAccount,
    pub user_y: TokenAccount,
    pub user_lp: TokenAccount,
}

impl Deposit {
    pub open spec fn wf(self) -> bool {
        &&& self.pool.wf()
        &&& self.user_x.mint == self.pool.config.mint_x
        &&& self.user_y.mint == self.pool.config.mint_y
        &&& self.user_x.authority == self.signer
        &&& self.user_y.authority == self.signer
        &&& self.user_lp.mint == self.pool.lp_mint_addr
        &&& self.user_lp.authority == self.signer
        &&& !self.user_x.frozen
        &&& !self.user_y.frozen
        &&& !self.user_lp.frozen
    }

    /// The context with all five user/pool balances replaced.
    pub open spec fn spec_after_amounts(self, vx: int, vy: int, ux: int, uy: int, supply: int, ulp: int) -> Deposit {
        Deposit {
            pool: Pool {
                vault_x: TokenAccount { amount: vx as u64, ..self.pool.vault_x },
                vault_y: TokenAccount { amount: vy as u64, ..self.pool.vault_y },
                mint_lp: TokenMint { supply: supply as u64, ..self.pool.mint_lp },
                ..self.pool
            },
            user_x: TokenAccount { amount: ux as u64, ..self.user_x },
            user_y: TokenAccount { amount: uy as u64, ..self.user_y },
            user_lp: TokenAccount { amount: ulp as u64, ..self.user_lp },
            ..self
        }
    }

    /// The token amounts a deposit of `l` LP requires, or the error that
    /// stops it: on a bootstrap deposit exactly the caller's maxima, else
    /// the pool-share amounts rounded up in favour of the pool.
    pub open spec fn spec_deposit_amounts(self, l: u64, max_x: u64, max_y: u64) -> Result<
        (int, int),
        AmmError,
    > {
        let x = self.pool.x();
        let y = self.pool.y();
        let supply = self.pool.lp();
        if self.pool.config.locked {
            Err(AmmError::PoolLocked)
        } else if self.pool.spec_is_bootstrap() {
            Ok((max_x as int, max_y as int))
        } else if supply == 0 {
            Err(AmmError::DivisionByZero)
        } else {
            let dx = spec_mul_div_ceil(l as int, x, supply);
            let dy = spec_mul_div_ceil(l as int, y, supply);
            if dx > u64::MAX {
                Err(AmmError::Overflow)
            } else if dy > u64::MAX {
                Err(AmmError::Overflow)
            } else if dx > max_x {
                Err(AmmError::SlippageX)
            } else if dy > max_y {
                Err(AmmError::SlippageY)
            } else {
                Ok((dx, dy))
            }
        }
    }

    /// The error a deposit of `l` LP reports, if any, in check order.
    pub open spec fn spec_deposit_err(self, l: u64, max_x: u64, max_y: u64) -> Option<AmmError> {
        match self.spec_deposit_amounts(l, max_x, max_y) {
            Err(e) => Some(e),
            Ok((dx, dy)) => {
                if self.user_x.amount < dx {
                    Some(AmmError::Token(TokenError::InsufficientBalance))
                } else if self.pool.x() + dx > u64::MAX {
                    Some(AmmError::Token(TokenError::Overflow))
                } else if self.user_y.amount < dy {
                    Some(AmmError::Token(TokenError::InsufficientBalance))
                } else if self.pool.y() + dy > u64::MAX {
                    Some(AmmError::Token(TokenError::Overflow))
                } else if self.pool.lp() + l > u64::MAX || self.user_lp.amount + l > u64::MAX {
                    Some(AmmError::Token(TokenError::Overflow))
                } else {
                    None
                }
            },
        }
    }

    /// Deposit: mint `amount` LP to the signer against token transfers of
    /// the pool-share amounts (never more than `max_x`/`max_y`). The whole
    /// multi-leg transfer commits or nothing does. For a non-bootstrap
    /// deposit both reserve/supply ratios move in the pool's favour:
    /// `x'·L ≥ x·L'` and `y'·L ≥ y·L'`.
    pub fn deposit(&mut self, amount: u64, max_x: u64, max_y: u64) -> (r: Result<(), AmmError>)
        requires
            old(self).wf(),
        ensures
            final(self).wf(),
            match r {
                Ok(_) => old(self).spec_deposit_err(amount, max_x, max_y) is None && ({
                    let x = old(self).pool.x();
                    let y = old(self).pool.y();
                    let supply = old(self).pool.lp();
                    let (dx, dy) = old(self).spec_deposit_amounts(amount, max_x, max_y)->Ok_0;
                    &&& *final(self) == old(self).spec_after_amounts(
                        x + dx,
                        y + dy,
                        old(self).user_x.amount - dx,
                        old(self).user_y.amount - dy,
                        supply + amount,
                        old(self).user_lp.amount + amount,
                    )
                    &&& (!old(self).pool.spec_is_bootstrap() ==> (x + dx) * supply >= x * (supply
                        + amount) && (y + dy) * supply >= y * (supply + amount))
                }),
                Err(e) => old(self).spec_deposit_err(amount, max_x, max_y) == Some(e)
                    && *final(self) == *old(self),
            },
    {
        if self.pool.config.locked {
            return Err(AmmError::PoolLocked);
        }
        let bootstrap: bool = self.pool.mint_lp.supply == 0 && self.pool.vault_x.amount == 0
            && self.pool.vault_y.amount == 0;
        let (dx, dy): (u64, u64) = if bootstrap {
            (max_x, max_y)
        } else {
            let dx = match mul_div_ceil(amount, self.pool.vault_x.amount, self.pool.mint_lp.supply) {
                Ok(v) => v,
                Err(e) => return Err(arith_to_amm(e)),
            };
            let dy = match mul_div_ceil(amount, self.pool.vault_y.amount, self.pool.mint_lp.supply) {
                Ok(v) => v,
                Err(e) => return Err(arith_to_amm(e)),
            };
            if dx > max_x {
                return Err(AmmError::SlippageX);
            }
            if dy > max_y {
                return Err(AmmError::SlippageY);
            }
            (dx, dy)
        };
        // Pre-check every leg so that the committed transfers cannot fail
        // half-way through.
        if self.user_x.amount < dx {
            return Err(AmmError::Token(TokenError::InsufficientBalance));
        }
        if dx > u64::MAX - self.pool.vault_x.amount {
            return Err(AmmError::Token(TokenError::Overflow));
        }
        if self.user_y.amount < dy {
            return Err(AmmError::Token(TokenError::InsufficientBalance));
        }
        if dy > u64::MAX - self.pool.vault_y.amount {
            return Err(AmmError::Token(TokenError::Overflow));
        }
        if amount > u64::MAX - self.pool.mint_lp.supply || amount > u64::MAX - self.user_lp.amount {
            return Err(AmmError::Token(TokenError::Overflow));
        }
        let ghost pre = *self;
        let mint_x_addr = self.pool.config.mint_x;
        let decimals_x = self.mint_x.decimals;
        let signer = self.signer;
        if let Err(e) = transfer_checked(
            &mut self.user_x,
            &mut self.pool.vault_x,
            &mint_x_addr,
            &self.mint_x,
            dx,
            decimals_x,
            &signer,
        ) {
            return Err(AmmError::Token(e));
        }
        let mint_y_addr = self.pool.config.mint_y;
        let decimals_y = self.mint_y.decimals;
        if let Err(e) = transfer_checked(
            &mut self.user_y,
            &mut self.pool.vault_y,
            &mint_y_addr,
            &self.mint_y,
            dy,
            decimals_y,
            &signer,
        ) {
            return Err(AmmError::Token(e));
        }
        let lp_addr = self.pool.lp_mint_addr;
        let cfg_addr = self.pool.config_addr;
        if let Err(e) = mint_to(&lp_addr, &mut self.pool.mint_lp, &mut self.user_lp, amount, &cfg_addr) {
            return Err(AmmError::Token(e));
        }
        proof {
            if !pre.pool.spec_is_bootstrap() {
                let x = pre.pool.x();
                let y = pre.pool.y();
                let supply = pre.pool.lp();
                let l = amount as int;
                lemma_ceil_div_bounds(l * x, supply);
                lemma_ceil_div_bounds(l * y, supply);
                let dxi = spec_mul_div_ceil(l, x, supply);
                let dyi = spec_mul_div_ceil(l, y, supply);
                assert((x + dxi) * supply >= x * (supply + l)) by (nonlinear_arith)
                    requires
                        supply * dxi >= l * x,
                        supply >= 0,
                        x >= 0,
                ;
                assert((y + dyi) * supply >= y * (supply + l)) by (nonlinear_arith)
                    requires
                        supply * dyi >= l * y,
                        supply >= 0,
                        y >= 0,
                ;
            }
        }
        Ok(())
    }
}

/// Accounts of the liquidity-withdrawal instruction.
pub struct Withdraw {
    pub signer: Address,
    pub pool: Pool,
    pub mint_x: TokenMint,
    pub mint_y: TokenMint,
    pub user_x: TokenAccount,
    pub user_y: TokenAccount,
    pub user_lp: TokenAccount,
}

impl Withdraw {
    pub open spec fn wf(self) -> bool {
        &&& self.pool.wf()
        &&& self.user_x.mint == self.pool.config.mint_x
        &&& self.user_y.mint == self.pool.config.mint_y
        &&& self.user_x.authority == self.signer
        &&& self.user_y.authority == self.signer
        &&& self.user_lp.mint == self.pool.lp_mint_addr
        &&& self.user_lp.authority == self.signer
        &&& !self.user_x.frozen
        &&& !self.user_y.frozen
        &&& !self.user_lp.frozen
    }

    /// The context with all five user/pool balances replaced.
    pub open spec fn spec_after_amounts(self, vx: int, vy: int, ux: int, uy: int, supply: int, ulp: int) -> Withdraw {
        Withdraw {
            pool: Pool {
                vault_x: TokenAccount { amount: vx as u64, ..self.pool.vault_x },
                vault_y: TokenAccount { amount: vy as u64, ..self.pool.vault_y },
                mint_lp: TokenMint { supply: supply as u64, ..self.pool.mint_lp },
                ..self.pool
            },
            user_x: TokenAccount { amount: ux as u64, ..self.user_x },
            user_y: TokenAccount { amount: uy as u64, ..self.user_y },
            user_lp: TokenAccount { amount: ulp as u64, ..self.user_lp },
            ..self
        }
    }

    /// The token amounts burning `l` LP returns, rounded down in favour of
    /// the pool, or the error that stops the withdrawal.
    pub open spec fn spec_withdraw_amounts(self, l: u64, min_x: u64, min_y: u64) -> Result<
        (int, int),
        AmmError,
    > {
        let x = self.pool.x();
        let y = self.pool.y();
        let supply = self.pool.lp();
        if self.pool.config.locked {
            Err(AmmError::PoolLocked)
        } else if supply == 0 {
            Err(AmmError::DivisionByZero)
        } else {
            let dx = spec_mul_div_floor(l as int, x, supply);
            let dy = spec_mul_div_floor(l as int, y, supply);
            if dx > u64::MAX {
                Err(AmmError::Overflow)
            } else if dy > u64::MAX {
                Err(AmmError::Overflow)
            } else if dx < min_x {
                Err(AmmError::SlippageX)
            } else if dy < min_y {
                Err(AmmError::SlippageY)
            } else {
                Ok((dx, dy))
            }
        }
    }

    /// The error a withdrawal of `l` LP reports, if any, in check order.
    pub open spec fn spec_withdraw_err(self, l: u64, min_x: u64, min_y: u64) -> Option<AmmError> {
        match self.spec_withdraw_amounts(l, min_x, min_y) {
            Err(e) => Some(e),
            Ok((dx, dy)) => {
                if self.pool.x() < dx {
                    Some(AmmError::Token(TokenError::InsufficientBalance))
                } else if self.user_x.amount + dx > u64::MAX {
                    Some(AmmError::Token(TokenError::Overflow))
                } else if self.pool.y() < dy {
                    Some(AmmError::Token(TokenError::InsufficientBalance))
                } else if self.user_y.amount + dy > u64::MAX {
                    Some(AmmError::Token(TokenError::Overflow))
                } else if self.user_lp.amount < l {
                    Some(AmmError::Token(TokenError::InsufficientBalance))
                } else if self.pool.lp() < l {
                    Some(AmmError::Token(TokenError::Underflow))
                } else {
                    None
                }
            },
        }
    }

    /// Withdraw: burn `amount` LP from the signer against vault transfers of
    /// the pool-share amounts rounded down (never less than
    /// `min_x`/`min_y`), signed by the configuration address. The whole
    /// multi-leg transfer commits or nothing does.
    pub fn withdraw(&mut self, amount: u64, min_x: u64, min_y: u64) -> (r: Result<(), AmmError>)
        requires
            old(self).wf(),
        ensures
            final(self).wf(),
            match r {
                Ok(_) => old(self).spec_withdraw_err(amount, min_x, min_y) is None && ({
                    let x = old(self).pool.x();
                    let y = old(self).pool.y();
                    let supply = old(self).pool.lp();
                    let (dx, dy) = old(self).spec_withdraw_amounts(amount, min_x, min_y)->Ok_0;
                    *final(self) == old(self).spec_after_amounts(
                        x - dx,
                        y - dy,
                        old(self).user_x.amount + dx,
                        old(self).user_y.amount + dy,
                        supply - amount,
                        old(self).user_lp.amount - amount,
                    )
                }),
                Err(e) => old(self).spec_withdraw_err(amount, min_x, min_y) == Some(e)
                    && *final(self) == *old(self),
            },
    {
        if self.pool.config.locked {
            return Err(AmmError::PoolLocked);
        }
        if self.pool.mint_lp.supply == 0 {
            return Err(AmmError::DivisionByZero);
        }
        let dx = match mul_div_floor(amount, self.pool.vault_x.amount, self.pool.mint_lp.supply) {
            Ok(v) => v,
            Err(e) => return Err(arith_to_amm(e)),
        };
        let dy = match mul_div_floor(amount, self.pool.vault_y.amount, self.pool.mint_lp.supply) {
            Ok(v) => v,
            Err(e) => return Err(arith_to_amm(e)),
        };
        if dx < min_x {
            return Err(AmmError::SlippageX);
        }
        if dy < min_y {
            return Err(AmmError::SlippageY);
        }
        // Pre-check every leg so that the committed transfers cannot fail
        // half-way through.
        if self.pool.vault_x.amount < dx {
            return Err(AmmError::Token(TokenError::InsufficientBalance));
        }
        if dx > u64::MAX - self.user_x.amount {
            return Err(AmmError::Token(TokenError::Overflow));
        }
        if self.pool.vault_y.amount < dy {
            return Err(AmmError::Token(TokenError::InsufficientBalance));
        }
        if dy > u64::MAX - self.user_y.amount {
            return Err(AmmError::Token(TokenError::Overflow));
        }
        if self.user_lp.amount < amount {
            return Err(AmmError::Token(TokenError::InsufficientBalance));
        }
        if self.pool.mint_lp.supply < amount {
            return Err(AmmError::Token(TokenError::Underflow));
        }
        let mint_x_addr = self.pool.config.mint_x;
        let decimals_x = self.mint_x.decimals;
        let cfg_addr = self.pool.config_addr;
        let signer = self.signer;
        if let Err(e) = transfer_checked(
            &mut self.pool.vault_x,
            &mut self.user_x,
            &mint_x_addr,
            &self.mint_x,
            dx,
            decimals_x,
            &cfg_addr,
        ) {
            return Err(AmmError::Token(e));
        }
        let mint_y_addr = self.pool.config.mint_y;
        let decimals_y = self.mint_y.decimals;
        if let Err(e) = transfer_checked(
            &mut self.pool.vault_y,
            &mut self.user_y,
            &mint_y_addr,
            &self.mint_y,
            dy,
            decimals_y,
            &cfg_addr,
        ) {
            return Err(AmmError::Token(e));
        }
        let lp_addr = self.pool.lp_mint_addr;
        if let Err(e) = burn(&lp_addr, &mut self.pool.mint_lp, &mut self.user_lp, amount, &signer) {
            return Err(AmmError::Token(e));
        }
        Ok(())
    }
}

/// Core inequality of the constant-product curve: if the pool receives the
/// full input `a_full`, prices the output from the fee-reduced input
/// `a_net ≤ a_full`, and rounds the output down, the product of the
/// reserves never decreases — and it strictly increases whenever some input
/// was kept back by the fee and the output did not drain the reserve.
pub proof fn lemma_swap_curve(x: int, y: int, a_full: int, a_net: int, out: int)
    requires
        x >= 0,
        y >= 0,
        0 <= a_net <= a_full,
        x + a_net > 0,
        out * (x + a_net) <= y * a_net,
        0 <= out <= y,
    ensures
        (x + a_full) * (y - out) >= x * y,
        a_net < a_full && out < y ==> (x + a_full) * (y - out) > x * y,
{
    let d = x + a_net;
    assert((y - out) * d >= y * x) by (nonlinear_arith)
        requires
            out * d <= y * a_net,
            d == x + a_net,
            y >= 0,
            x >= 0,
            a_net >= 0,
    ;
    assert((x + a_full) * (y - out) >= (y - out) * d) by (nonlinear_arith)
        requires
            d == x + a_net,
            a_full >= a_net,
            y - out >= 0,
    ;
    assert(x * y == y * x) by (nonlinear_arith);
    if a_net < a_full && out < y {
        assert((x + a_full) * (y - out) >= (y - out) * d + (a_full - a_net) * (y - out))
            by (nonlinear_arith)
            requires
                d == x + a_net,
                a_full >= a_net,
                y - out >= 0,
        ;
        assert((a_full - a_net) * (y - out) >= 1) by (nonlinear_arith)
            requires
                a_full - a_net >= 1,
                y - out >= 1,
        ;
    }
}

/// Accounts of the swap instruction.
pub struct Swap {
    pub signer: Address,
    pub pool: Pool,
    pub mint_x: TokenMint,
    pub mint_y: TokenMint,
    pub user_x: TokenAccount,
    pub user_y: TokenAccount,
}

impl Swap {
    pub open spec fn wf(self) -> bool {
        &&& self.pool.wf()
        &&& self.user_x.mint == self.pool.config.mint_x
        &&& self.user_y.mint == self.pool.config.mint_y
        &&& self.user_x.authority == self.signer
        &&& self.user_y.authority == self.signer
        &&& !self.user_x.frozen
        &&& !self.user_y.frozen
    }

    /// The context with the four balances replaced.
    pub open spec fn spec_after_amounts(self, vx: int, vy: int, ux: int, uy: int) -> Swap {
        Swap {
            pool: Pool {
                vault_x: TokenAccount { amount: vx as u64, ..self.pool.vault_x },
                vault_y: TokenAccount { amount: vy as u64, ..self.pool.vault_y },
                ..self.pool
            },
            user_x: TokenAccount { amount: ux as u64, ..self.user_x },
            user_y: TokenAccount { amount: uy as u64, ..self.user_y },
            ..self
        }
    }

    /// The fee-reduced input credited to the curve.
    pub open spec fn spec_net_in(self, amount: u64) -> int {
        spec_bps(amount as int, 10000 - self.pool.config.fee)
    }

    /// The output the curve grants for `amount` paid into the `is_x` side.
    pub open spec fn spec_out(self, is_x: bool, amount: u64) -> int {
        let in_r = if is_x { self.pool.x() } else { self.pool.y() };
        let out_r = if is_x { self.pool.y() } else { self.pool.x() };
        (out_r * self.spec_net_in(amount)) / (in_r + self.spec_net_in(amount))
    }

    /// The error a swap reports, if any, in check order.
    pub open spec fn spec_swap_err(self, is_x: bool, amount: u64, min_out: u64) -> Option<
        AmmError,
    > {
        let in_r = if is_x { self.pool.x() } else { self.pool.y() };
        let out_r = if is_x { self.pool.y() } else { self.pool.x() };
        let u_in = if is_x { self.user_x.amount as int } else { self.user_y.amount as int };
        let u_out = if is_x { self.user_y.amount as int } else { self.user_x.amount as int };
        if self.pool.config.locked {
            Some(AmmError::PoolLocked)
        } else if amount == 0 {
            Some(AmmError::ZeroAmount)
        } else if in_r + amount > u64::MAX {
            Some(AmmError::Token(TokenError::Overflow))
        } else if in_r + self.spec_net_in(amount) == 0 {
            Some(AmmError::DivisionByZero)
        } else {
            let out = self.spec_out(is_x, amount);
            if out == 0 || out >= out_r {
                Some(AmmError::InsufficientLiquidity)
            } else if out < min_out {
                Some(AmmError::SlippageOut)
            } else if u_in < amount {
                Some(AmmError::Token(TokenError::InsufficientBalance))
            } else if u_out + out > u64::MAX {
                Some(AmmError::Token(TokenError::Overflow))
            } else {
                None
            }
        }
    }

    /// Swap: pay `amount` into one side, receive the constant-product
    /// output priced on the fee-reduced input from the other, never less
    /// than `min_out`. After any successful swap the product of the
    /// reserves does not decrease, and increases strictly when the fee is
    /// positive.
    pub fn swap(&mut self, is_x: bool, amount: u64, min_out: u64) -> (r: Result<(), AmmError>)
        requires
            old(self).wf(),
        ensures
            final(self).wf(),
            match r {
                Ok(_) => old(self).spec_swap_err(is_x, amount, min_out) is None && ({
                    let out = old(self).spec_out(is_x, amount);
                    &&& *final(self) == (if is_x {
                        old(self).spec_after_amounts(
                            old(self).pool.x() + amount,
                            old(self).pool.y() - out,
                            old(self).user_x.amount - amount,
                            old(self).user_y.amount + out,
                        )
                    } else {
                        old(self).spec_after_amounts(
                            old(self).pool.x() - out,
                            old(self).pool.y() + amount,
                            old(self).user_x.amount + out,
                            old(self).user_y.amount - amount,
                        )
                    })
                    &&& final(self).pool.x() * final(self).pool.y()
                        >= old(self).pool.x() * old(self).pool.y()
                    &&& (old(self).pool.config.fee > 0 ==> final(self).pool.x()
                        * final(self).pool.y() > old(self).pool.x() * old(self).pool.y())
                }),
                Err(e) => old(self).spec_swap_err(is_x, amount, min_out) == Some(e)
                    && *final(self) == *old(self),
            },
    {
        if self.pool.config.locked {
            return Err(AmmError::PoolLocked);
        }
        if amount == 0 {
            return Err(AmmError::ZeroAmount);
        }
        let (in_r, out_r): (u64, u64) = if is_x {
            (self.pool.vault_x.amount, self.pool.vault_y.amount)
        } else {
            (self.pool.vault_y.amount, self.pool.vault_x.amount)
        };
        if amount > u64::MAX - in_r {
            return Err(AmmError::Token(TokenError::Overflow));
        }
        let fee: u16 = self.pool.config.fee;
        let net_in: u64 = crate::math::bps_fee(amount, 10000 - fee);
        let den: u64 = in_r + net_in;
        if den == 0 {
            return Err(AmmError::DivisionByZero);
        }
        proof {
            assert(out_r * net_in <= out_r * den) by (nonlinear_arith)
                requires
                    net_in <= den,
                    out_r >= 0,
            ;
            lemma_div_is_ordered(out_r as int * net_in as int, out_r as int * den as int, den as int);
            vstd::arithmetic::div_mod::lemma_div_multiples_vanish(out_r as int, den as int);
            assert(out_r * den == den * out_r) by (nonlinear_arith);
        }
        let out: u64 = match mul_div_floor(out_r, net_in, den) {
            Ok(v) => v,
            Err(e) => return Err(arith_to_amm(e)),
        };
        if out == 0 || out >= out_r {
            return Err(AmmError::InsufficientLiquidity);
        }
        if out < min_out {
            return Err(AmmError::SlippageOut);
        }
        let u_in: u64 = if is_x { self.user_x.amount } else { self.user_y.amount };
        let u_out: u64 = if is_x { self.user_y.amount } else { self.user_x.amount };
        if u_in < amount {
            return Err(AmmError::Token(TokenError::InsufficientBalance));
        }
        if out > u64::MAX - u_out {
            return Err(AmmError::Token(TokenError::Overflow));
        }
        let ghost pre = *self;
        let mint_x_addr = self.pool.config.mint_x;
        let mint_y_addr = self.pool.config.mint_y;
        let decimals_x = self.mint_x.decimals;
        let decimals_y = self.mint_y.decimals;
        let signer = self.signer;
        let cfg_addr = self.pool.config_addr;
        if is_x {
            if let Err(e) = transfer_checked(
                &mut self.user_x,
                &mut self.pool.vault_x,
                &mint_x_addr,
                &self.mint_x,
                amount,
                decimals_x,
                &signer,
            ) {
                return Err(AmmError::Token(e));
            }
            if let Err(e) = transfer_checked(
                &mut self.pool.vault_y,
                &mut self.user_y,
                &mint_y_addr,
                &self.mint_y,
                out,
                decimals_y,
                &cfg_addr,
            ) {
                return Err(AmmError::Token(e));
            }
        } else {
            if let Err(e) = transfer_checked(
                &mut self.user_y,
                &mut self.pool.vault_y,
                &mint_y_addr,
                &self.mint_y,
                amount,
                decimals_y,
                &signer,
            ) {
                return Err(AmmError::Token(e));
            }
            if let Err(e) = transfer_checked(
                &mut self.pool.vault_x,
                &mut self.user_x,
                &mint_x_addr,
                &self.mint_x,
                out,
                decimals_x,
                &cfg_addr,
            ) {
                return Err(AmmError::Token(e));
            }
        }
        proof {
            let x0 = in_r as int;
            let y0 = out_r as int;
            let a_full = amount as int;
            let a_net = pre.spec_net_in(amount);
            let out_i = out as int;
            lemma_floor_div_bounds(y0 * a_net, x0 + a_net);
            assert(((x0 + a_net) * ((y0 * a_net) / (x0 + a_net))) == (((y0 * a_net) / (x0 + a_net))
                * (x0 + a_net))) by (nonlinear_arith);
            if fee > 0 {
                // The fee keeps back at least one unit of the input.
                let kept = 10000 - fee as int;
                assert(a_full * kept <= a_full * 10000 - a_full) by (nonlinear_arith)
                    requires
                        kept <= 9999,
                        a_full >= 1,
                ;
                lemma_div_is_ordered(a_full * kept, a_full * 10000 - 1, 10000);
                lemma_div_multiples_vanish_fancy(a_full - 1, 9999, 10000);
                assert(10000 * (a_full - 1) + 9999 == a_full * 10000 - 1) by (nonlinear_arith);
            }
            lemma_swap_curve(x0, y0, a_full, a_net, out_i);
            assert((x0 + a_full) * (y0 - out_i) == (y0 - out_i) * (x0 + a_full))
                by (nonlinear_arith);
            assert(x0 * y0 == y0 * x0) by (nonlinear_arith);
        }
        Ok(())
    }
}

/// Law: a deposit of `l` LP immediately followed by a withdrawal of the
/// same `l` returns the signer's balance of each asset to within one unit
/// of where it started. The deposit charges `dx = ⌈l·x/L⌉`; the withdrawal
/// against the updated reserves returns `⌊l·(x+dx)/(L+l)⌋`, which is
/// always `dx` or `dx − 1`. The statement applies to each asset separately.
pub proof fn lemma_deposit_withdraw_round_trip(x: int, supply: int, l: int, dx: int, wx: int)
    requires
        supply > 0,
        l >= 0,
        x >= 0,
        dx == spec_mul_div_ceil(l, x, supply),
        wx == spec_mul_div_floor(l, x + dx, supply + l),
    ensures
        dx - 1 <= wx <= dx,
{
    let n = l * x;
    assert(l * x >= 0) by (nonlinear_arith)
        requires
            l >= 0,
            x >= 0,
    ;
    lemma_ceil_div_bounds(n, supply);
    assert(l * (x + dx) == n + l * dx) by (nonlinear_arith)
        requires
            n == l * x,
    ;
    // Upper bound: the withdrawal never returns more than the deposit took.
    assert(n + l * dx <= (supply + l) * dx) by (nonlinear_arith)
        requires
            supply * dx >= n,
            l >= 0,
            dx >= 0,
    ;
    lemma_div_is_ordered(n + l * dx, (supply + l) * dx, supply + l);
    vstd::arithmetic::div_mod::lemma_div_multiples_vanish(dx, supply + l);
    // Lower bound: it returns at most one unit less.
    assert(n + l * dx >= (supply + l) * (dx - 1) + 1) by (nonlinear_arith)
        requires
            supply * dx <= n + supply - 1,
            l >= 0,
            dx >= 0,
    ;
    lemma_div_is_ordered((supply + l) * (dx - 1), n + l * dx, supply + l);
    vstd::arithmetic::div_mod::lemma_div_multiples_vanish(dx - 1, supply + l);
}

} // verus!

//! Token-for-token escrow.
//!
//! A maker deposits tokens of mint A into a vault owned by the escrow's
//! state address and names the amount of mint B expected in return. A taker
//! settles by paying the maker in B and receiving the vault's A; the maker
//! may instead reclaim the deposit. Settlement and refund close the vault
//! and the state record, refunding their rent to the maker.

use vstd::prelude::*;

use crate::keys::Address;
use crate::token::{close_account, transfer_checked, TokenAccount, TokenError, TokenMint};

verus! {

/// Errors of the escrow program.
#[derive(Clone, Copy, PartialEq, Eq, Structural, Debug)]
pub enum EscrowError {
    ZeroAmount,
    SameMint,
    NotMaker,
    Token(TokenError),
}

/// The escrow's persistent state record.
#[derive(Clone, Copy, PartialEq, Eq, Structural, Debug)]
pub struct EscrowState {
    pub seed: u64,
    pub maker: Address,
    pub mint_a: Address,
    pub mint_b: Address,
    pub receive_amount: u64,
    pub bump: u8,
}

/// Accounts of the escrow-creation instruction.
pub struct Make {
    pub maker: Address,
    pub mint_a_addr: Address,
    pub mint_b_addr: Address,
    pub mint_a: TokenMint,
    pub maker_ata_a: TokenAccount,
    pub state_addr: Address,
    pub state_bump: u8,
    pub vault: TokenAccount,
}

impl Make {
    pub open spec fn wf(self) -> bool {
        &&& self.maker_ata_a.mint == self.mint_a_addr
        &&& self.maker_ata_a.authority == self.maker
        &&& !self.maker_ata_a.frozen
        &&& self.vault.mint == self.mint_a_addr
        &&& self.vault.authority == self.state_addr
        &&& !self.vault.frozen
    }

    /// The error `make` reports, if any, in check order.
    pub open spec fn spec_make_err(self, receive_amount: u64, deposit_amount: u64) -> Option<
        EscrowError,
    > {
        if receive_amount == 0 || deposit_amount == 0 {
            Some(EscrowError::ZeroAmount)
        } else if self.mint_a_addr == self.mint_b_addr {
            Some(EscrowError::SameMint)
        } else if self.maker_ata_a.amount < deposit_amount {
            Some(EscrowError::Token(TokenError::InsufficientBalance))
        } else if self.vault.amount + deposit_amount > u64::MAX {
            Some(EscrowError::Token(TokenError::Overflow))
        } else {
            None
        }
    }

    /// Create the escrow: persist the state record (with the bump produced
    /// by deriving the state address) and move the maker's deposit of mint
    /// A into the vault.
    pub fn make(&mut self, seed: u64, receive_amount: u64, deposit_amount: u64) -> (r: Result<
        EscrowState,
        EscrowError,
    >)
        requires
            old(self).wf(),
        ensures
            final(self).wf(),
            match r {
                Ok(state) => old(self).spec_make_err(receive_amount, deposit_amount) is None
                    && state == (EscrowState {
                    seed,
                    maker: old(self).maker,
                    mint_a: old(self).mint_a_addr,
                    mint_b: old(self).mint_b_addr,
                    receive_amount,
                    bump: old(self).state_bump,
                }) && *final(self) == (Make {
                    maker_ata_a: TokenAccount {
                        amount: (old(self).maker_ata_a.amount - deposit_amount) as u64,
                        ..old(self).maker_ata_a
                    },
                    vault: TokenAccount {
                        amount: (old(self).vault.amount + deposit_amount) as u64,
                        ..old(self).vault
                    },
                    ..*old(self)
                }),
                Err(e) => old(self).spec_make_err(receive_amount, deposit_amount) == Some(e)
                    && *final(self) == *old(self),
            },
    {
        if receive_amount == 0 || deposit_amount == 0 {
            return Err(EscrowError::ZeroAmount);
        }
        if self.mint_a_addr == self.mint_b_addr {
            return Err(EscrowError::SameMint);
        }
        if self.maker_ata_a.amount < deposit_amount {
            return Err(EscrowError::Token(TokenError::InsufficientBalance));
        }
        if deposit_amount > u64::MAX - self.vault.amount {
            return Err(EscrowError::Token(TokenError::Overflow));
        }
        let mint_a_addr = self.mint_a_addr;
        let decimals = self.mint_a.decimals;
        let maker = self.maker;
        if let Err(e) = transfer_checked(
            &mut self.maker_ata_a,
            &mut self.vault,
            &mint_a_addr,
            &self.mint_a,
            deposit_amount,
            decimals,
            &maker,
        ) {
            return Err(EscrowError::Token(e));
        }
        Ok(
            EscrowState {
                seed,
                maker: self.maker,
                mint_a: self.mint_a_addr,
                mint_b: self.mint_b_addr,
                receive_amount,
                bump: self.state_bump,
            },
        )
    }
}

/// Accounts of the settlement instruction.
pub struct Take {
    pub taker: Address,
    pub maker_lamports: u64,
    pub state: EscrowState,
    pub state_addr: Address,
    pub state_rent: u64,
    pub mint_a: TokenMint,
    pub mint_b: TokenMint,
    pub vault: TokenAccount,
    pub taker_ata_a: TokenAccount,
    pub taker_ata_b: TokenAccount,
    pub maker_ata_b: TokenAccount,
    pub vault_closed: bool,
    pub state_closed: bool,
}

impl Take {
    pub open spec fn wf(self) -> bool {
        &&& self.vault.mint == self.state.mint_a
        &&& self.vault.authority == self.state_addr
        &&& !self.vault.frozen
        &&& self.taker_ata_a.mint == self.state.mint_a
        &&& self.taker_ata_a.authority == self.taker
        &&& !self.taker_ata_a.frozen
        &&& self.taker_ata_b.mint == self.state.mint_b
        &&& self.taker_ata_b.authority == self.taker
        &&& !self.taker_ata_b.frozen
        &&& self.maker_ata_b.mint == self.state.mint_b
        &&& self.maker_ata_b.authority == self.state.maker
        &&& !self.maker_ata_b.frozen
    }

    /// The error `take` reports, if any, in check order.
    pub open spec fn spec_take_err(self) -> Option<EscrowError> {
        if self.taker_ata_b.amount < self.state.receive_amount {
            Some(EscrowError::Token(TokenError::InsufficientBalance))
        } else if self.maker_ata_b.amount + self.state.receive_amount > u64::MAX {
            Some(EscrowError::Token(TokenError::Overflow))
        } else if self.taker_ata_a.amount + self.vault.amount > u64::MAX {
            Some(EscrowError::Token(TokenError::Overflow))
        } else if self.maker_lamports + self.vault.rent + self.state_rent > u64::MAX {
            Some(EscrowError::Token(TokenError::Overflow))
        } else {
            None
        }
    }

    /// Settle the escrow atomically: the taker pays the maker the asked
    /// amount of mint B, receives the vault's whole balance of mint A, and
    /// the vault and state record are closed with their rent refunded to
    /// the maker. On any error — in particular an insufficient taker B
    /// balance — no balance moves and nothing is closed.
    pub fn take(&mut self) -> (r: Result<(), EscrowError>)
        requires
            old(self).wf(),
            !old(self).vault_closed,
            !old(self).state_closed,
        ensures
            match r {
                Ok(_) => old(self).spec_take_err() is None && *final(self) == (Take {
                    taker_ata_b: TokenAccount {
                        amount: (old(self).taker_ata_b.amount - old(self).state.receive_amount) as u64,
                        ..old(self).taker_ata_b
                    },
                    maker_ata_b: TokenAccount {
                        amount: (old(self).maker_ata_b.amount + old(self).state.receive_amount) as u64,
                        ..old(self).maker_ata_b
                    },
                    taker_ata_a: TokenAccount {
                        amount: (old(self).taker_ata_a.amount + old(self).vault.amount) as u64,
                        ..old(self).taker_ata_a
                    },
                    vault: TokenAccount { amount: 0, rent: 0, ..old(self).vault },
                    maker_lamports: (old(self).maker_lamports + old(self).vault.rent + old(
                        self,
                    ).state_rent) as u64,
                    state_rent: 0,
                    vault_closed: true,
                    state_closed: true,
                    ..*old(self)
                }),
                Err(e) => old(self).spec_take_err() == Some(e) && *final(self) == *old(self),
            },
    {
        let receive = self.state.receive_amount;
        if self.taker_ata_b.amount < receive {
            return Err(EscrowError::Token(TokenError::InsufficientBalance));
        }
        if receive > u64::MAX - self.maker_ata_b.amount {
            return Err(EscrowError::Token(TokenError::Overflow));
        }
        if self.vault.amount > u64::MAX - self.taker_ata_a.amount {
            return Err(EscrowError::Token(TokenError::Overflow));
        }
        if self.vault.rent > u64::MAX - self.maker_lamports || self.state_rent > u64::MAX - (
        self.maker_lamports + self.vault.rent) {
            return Err(EscrowError::Token(TokenError::Overflow));
        }
        let mint_b_addr = self.state.mint_b;
        let decimals_b = self.mint_b.decimals;
        let taker = self.taker;
        if let Err(e) = transfer_checked(
            &mut self.taker_ata_b,
            &mut self.maker_ata_b,
            &mint_b_addr,
            &self.mint_b,
            receive,
            decimals_b,
            &taker,
        ) {
            return Err(EscrowError::Token(e));
        }
        let mint_a_addr = self.state.mint_a;
        let decimals_a = self.mint_a.decimals;
        let state_addr = self.state_addr;
        let vault_amount = self.vault.amount;
        if let Err(e) = transfer_checked(
            &mut self.vault,
            &mut self.taker_ata_a,
            &mint_a_addr,
            &self.mint_a,
            vault_amount,
            decimals_a,
            &state_addr,
        ) {
            return Err(EscrowError::Token(e));
        }
        if let Err(e) = close_account(&mut self.vault, &mut self.maker_lamports, &state_addr) {
            return Err(EscrowError::Token(e));
        }
        self.maker_lamports = self.maker_lamports + self.state_rent;
        self.state_rent = 0;
        self.vault_closed = true;
        self.state_closed = true;
        Ok(())
    }
}

/// Accounts of the refund instruction.
pub struct Refund {
    pub signer: Address,
    pub maker_lamports: u64,
    pub state: EscrowState,
    pub state_addr: Address,
    pub state_rent: u64,
    pub mint_a: TokenMint,
    pub maker_ata_a: TokenAccount,
    pub vault: TokenAccount,
    pub vault_closed: bool,
    pub state_closed: bool,
}

impl Refund {
    pub open spec fn wf(self) -> bool {
        &&& self.vault.mint == self.state.mint_a
        &&& self.vault.authority == self.state_addr
        &&& !self.vault.frozen
        &&& self.maker_ata_a.mint == self.state.mint_a
        &&& self.maker_ata_a.authority == self.state.maker
        &&& !self.maker_ata_a.frozen
    }

    /// The error `refund` reports, if any, in check order.
    pub open spec fn spec_refund_err(self) -> Option<EscrowError> {
        if self.signer != self.state.maker {
            Some(EscrowError::NotMaker)
        } else if self.maker_ata_a.amount + self.vault.amount > u64::MAX {
            Some(EscrowError::Token(TokenError::Overflow))
        } else if self.maker_lamports + self.vault.rent + self.state_rent > u64::MAX {
            Some(EscrowError::Token(TokenError::Overflow))
        } else {
            None
        }
    }

    /// Return the vault's whole deposit to the maker, then close the vault
    /// and the state record, refunding their rent to the maker. Only the
    /// maker may direct it.
    pub fn refund(&mut self) -> (r: Result<(), EscrowError>)
        requires
            old(self).wf(),
            !old(self).vault_closed,
            !old(self).state_closed,
        ensures
            match r {
                Ok(_) => old(self).spec_refund_err() is None && *final(self) == (Refund {
                    maker_ata_a: TokenAccount {
                        amount: (old(self).maker_ata_a.amount + old(self).vault.amount) as u64,
                        ..old(self).maker_ata_a
                    },
                    vault: TokenAccount { amount: 0, rent: 0, ..old(self).vault },
                    maker_lamports: (old(self).maker_lamports + old(self).vault.rent + old(
                        self,
                    ).state_rent) as u64,
                    state_rent: 0,
                    vault_closed: true,
                    state_closed: true,
                    ..*old(self)
                }),
                Err(e) => old(self).spec_refund_err() == Some(e) && *final(self) == *old(self),
            },
    {
        if self.signer != self.state.maker {
            return Err(EscrowError::NotMaker);
        }
        if self.vault.amount > u64::MAX - self.maker_ata_a.amount {
            return Err(EscrowError::Token(TokenError::Overflow));
        }
        if self.vault.rent > u64::MAX - self.maker_lamports || self.state_rent > u64::MAX - (
        self.maker_lamports + self.vault.rent) {
            return Err(EscrowError::Token(TokenError::Overflow));
        }
        let mint_a_addr = self.state.mint_a;
        let decimals_a = self.mint_a.decimals;
        let state_addr = self.state_addr;
        let vault_amount = self.vault.amount;
        if let Err(e) = transfer_checked(
            &mut self.vault,
            &mut self.maker_ata_a,
            &mint_a_addr,
            &self.mint_a,
            vault_amount,
            decimals_a,
            &state_addr,
        ) {
            return Err(EscrowError::Token(e));
        }
        if let Err(e) = close_account(&mut self.vault, &mut self.maker_lamports, &state_addr) {
            return Err(EscrowError::Token(e));
        }
        self.maker_lamports = self.maker_lamports + self.state_rent;
        self.state_rent = 0;
        self.vault_closed = true;
        self.state_closed = true;
        Ok(())
    }
}

} // verus!

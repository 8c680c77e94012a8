//! Per-owner native-asset custody vault.
//!
//! A state record at ("state", owner) names a system account holding the
//! owner's deposited lamports; withdrawals are signed by the state
//! address's seeds.

use vstd::prelude::*;

use crate::keys::Address;
use crate::token::{native_transfer, TokenError};

verus! {

/// Errors of the vault program.
#[derive(Clone, Copy, PartialEq, Eq, Structural, Debug)]
pub enum VaultError {
    InsufficientBalance,
    Overflow,
}

/// The vault's persistent state record: the two bumps of its addresses.
#[derive(Clone, Copy, PartialEq, Eq, Structural, Debug)]
pub struct VaultState {
    pub vault_bump: u8,
    pub state_bump: u8,
}

/// Accounts of the vault-creation instruction.
pub struct Initialize {
    pub signer: Address,
    pub state_bump: u8,
    pub vault_bump: u8,
}

impl Initialize {
    /// Create the state record, persisting the bumps handed in by address
    /// derivation.
    pub fn initialize(&self) -> (r: VaultState)
        ensures
            r == (VaultState { vault_bump: self.vault_bump, state_bump: self.state_bump }),
    {
        VaultState { vault_bump: self.vault_bump, state_bump: self.state_bump }
    }
}

/// Accounts of the deposit instruction.
pub struct Deposit {
    pub signer: Address,
    pub signer_lamports: u64,
    pub vault_lamports: u64,
    pub state: VaultState,
}

impl Deposit {
    /// Move `amount` lamports from the signer into the vault.
    pub fn deposit(&mut self, amount: u64) -> (r: Result<(), VaultError>)
        ensures
            match r {
                Ok(_) => amount <= old(self).signer_lamports && old(self).vault_lamports + amount
                    <= u64::MAX && *final(self) == (Deposit {
                    signer_lamports: (old(self).signer_lamports - amount) as u64,
                    vault_lamports: (old(self).vault_lamports + amount) as u64,
                    ..*old(self)
                }),
                Err(e) => *final(self) == *old(self) && ((amount > old(self).signer_lamports && e
                    == VaultError::InsufficientBalance) || (amount <= old(self).signer_lamports
                    && old(self).vault_lamports + amount > u64::MAX && e == VaultError::Overflow)),
            },
    {
        match native_transfer(&mut self.signer_lamports, &mut self.vault_lamports, amount) {
            Ok(_) => Ok(()),
            Err(TokenError::InsufficientBalance) => Err(VaultError::InsufficientBalance),
            Err(_) => Err(VaultError::Overflow),
        }
    }
}

/// Accounts of the withdraw instruction.
pub struct Withdraw {
    pub signer: Address,
    pub signer_lamports: u64,
    pub vault_lamports: u64,
    pub state: VaultState,
}

impl Withdraw {
    /// Move `amount` lamports from the vault back to the signer, signed by
    /// the vault's seeds.
    pub fn withdraw(&mut self, amount: u64) -> (r: Result<(), VaultError>)
        ensures
            match r {
                Ok(_) => amount <= old(self).vault_lamports && old(self).signer_lamports + amount
                    <= u64::MAX && *final(self) == (Withdraw {
                    vault_lamports: (old(self).vault_lamports - amount) as u64,
                    signer_lamports: (old(self).signer_lamports + amount) as u64,
                    ..*old(self)
                }),
                Err(e) => *final(self) == *old(self) && ((amount > old(self).vault_lamports && e
                    == VaultError::InsufficientBalance) || (amount <= old(self).vault_lamports
                    && old(self).signer_lamports + amount > u64::MAX && e == VaultError::Overflow)),
            },
    {
        match native_transfer(&mut self.vault_lamports, &mut self.signer_lamports, amount) {
            Ok(_) => Ok(()),
            Err(TokenError::InsufficientBalance) => Err(VaultError::InsufficientBalance),
            Err(_) => Err(VaultError::Overflow),
        }
    }
}

} // verus!

//! NFT marketplace with a rewards token.
//!
//! A marketplace record carries an admin, a fee in basis points and the
//! bumps of its treasury and rewards mint. Makers list a single NFT unit in
//! a vault owned by the listing's derived address; a purchase splits the
//! price between the treasury (the fee) and the maker (the rest), hands the
//! NFT to the taker, mints one reward token, and closes the vault and the
//! listing.

use vstd::prelude::*;

use crate::keys::Address;
use crate::math::{bps_fee, spec_bps};
use crate::token::{
    close_account, mint_to, native_transfer, transfer_checked, TokenAccount, TokenError, TokenMint,
};

verus! {

/// Errors of the marketplace program.
#[derive(Clone, Copy, PartialEq, Eq, Structural, Debug)]
pub enum MarketError {
    InvalidFee,
    InvalidPrice,
    NotMaker,
    Token(TokenError),
}

/// The marketplace's persistent record.
pub struct Marketplace {
    pub admin: Address,
    pub fee: u16,
    pub bump: u8,
    pub treasury_bump: u8,
    pub rewards_bump: u8,
    pub name: String,
}

impl Marketplace {
    pub open spec fn wf(self) -> bool {
        self.fee <= 10000
    }
}

/// A listing of one NFT unit at a fixed native-asset price.
#[derive(Clone, Copy, PartialEq, Eq, Structural, Debug)]
pub struct Listing {
    pub maker: Address,
    pub price: u64,
    pub bump: u8,
}

/// Accounts of the marketplace-creation instruction.
pub struct Initialize {
    pub admin: Address,
    pub marketplace_addr: Address,
    pub bump: u8,
    pub treasury_bump: u8,
    pub rewards_bump: u8,
}

impl Initialize {
    /// Create the marketplace record and its rewards mint (6 decimals,
    /// authority-bound to the marketplace address). The persisted bumps are
    /// the ones handed in by address derivation.
    pub fn init(&self, name: String, fee: u16) -> (r: Result<(Marketplace, TokenMint), MarketError>)
        ensures
            match r {
                Ok(created) => fee <= 10000 && created.0.wf() && created.0.admin == self.admin
                    && created.0.fee == fee && created.0.bump == self.bump
                    && created.0.treasury_bump == self.treasury_bump && created.0.rewards_bump
                    == self.rewards_bump && created.0.name@ == name@ && created.1 == (TokenMint {
                    supply: 0,
                    decimals: 6,
                    mint_authority: self.marketplace_addr,
                }),
                Err(e) => fee > 10000 && e == MarketError::InvalidFee,
            },
    {
        if fee > 10000 {
            return Err(MarketError::InvalidFee);
        }
        let marketplace = Marketplace {
            admin: self.admin,
            fee,
            bump: self.bump,
            treasury_bump: self.treasury_bump,
            rewards_bump: self.rewards_bump,
            name,
        };
        let rewards = TokenMint { supply: 0, decimals: 6, mint_authority: self.marketplace_addr };
        Ok((marketplace, rewards))
    }
}

/// Accounts of the listing instruction.
pub struct List {
    pub maker: Address,
    pub nft_mint_addr: Address,
    pub nft_mint: TokenMint,
    pub maker_ata: TokenAccount,
    pub vault: TokenAccount,
    pub listing_addr: Address,
    pub listing_bump: u8,
}

impl List {
    pub open spec fn wf(self) -> bool {
        &&& self.maker_ata.mint == self.nft_mint_addr
        &&& self.maker_ata.authority == self.maker
        &&& !self.maker_ata.frozen
        &&& self.vault.mint == self.nft_mint_addr
        &&& self.vault.authority == self.listing_addr
        &&& !self.vault.frozen
    }

    /// The error `list` reports, if any, in check order.
    pub open spec fn spec_list_err(self, price: u64) -> Option<MarketError> {
        if price == 0 {
            Some(MarketError::InvalidPrice)
        } else if self.maker_ata.amount < 1 {
            Some(MarketError::Token(TokenError::InsufficientBalance))
        } else if self.vault.amount + 1 > u64::MAX {
            Some(MarketError::Token(TokenError::Overflow))
        } else {
            None
        }
    }

    /// Create the listing record and move one NFT unit from the maker into
    /// the listing's vault. A zero price is rejected.
    pub fn list(&mut self, price: u64) -> (r: Result<Listing, MarketError>)
        requires
            old(self).wf(),
        ensures
            final(self).wf(),
            match r {
                Ok(listing) => old(self).spec_list_err(price) is None && listing == (Listing {
                    maker: old(self).maker,
                    price,
                    bump: old(self).listing_bump,
                }) && *final(self) == (List {
                    maker_ata: TokenAccount {
                        amount: (old(self).maker_ata.amount - 1) as u64,
                        ..old(self).maker_ata
                    },
                    vault: TokenAccount {
                        amount: (old(self).vault.amount + 1) as u64,
                        ..old(self).vault
                    },
                    ..*old(self)
                }),
                Err(e) => old(self).spec_list_err(price) == Some(e) && *final(self) == *old(self),
            },
    {
        if price == 0 {
            return Err(MarketError::InvalidPrice);
        }
        if self.maker_ata.amount < 1 {
            return Err(MarketError::Token(TokenError::InsufficientBalance));
        }
        if self.vault.amount > u64::MAX - 1 {
            return Err(MarketError::Token(TokenError::Overflow));
        }
        let nft_mint_addr = self.nft_mint_addr;
        let decimals = self.nft_mint.decimals;
        let maker = self.maker;
        if let Err(e) = transfer_checked(
            &mut self.maker_ata,
            &mut self.vault,
            &nft_mint_addr,
            &self.nft_mint,
            1,
            decimals,
            &maker,
        ) {
            return Err(MarketError::Token(e));
        }
        Ok(Listing { maker: self.maker, price, bump: self.listing_bump })
    }
}

/// Accounts of the delisting instruction.
pub struct Delist {
    pub signer: Address,
    pub listing: Listing,
    pub listing_addr: Address,
    pub listing_rent: u64,
    pub nft_mint_addr: Address,
    pub nft_mint: TokenMint,
    pub maker_ata: TokenAccount,
    pub vault: TokenAccount,
    pub maker_lamports: u64,
    pub vault_closed: bool,
    pub listing_closed: bool,
}

impl Delist {
    pub open spec fn wf(self) -> bool {
        &&& self.maker_ata.mint == self.nft_mint_addr
        &&& self.maker_ata.authority == self.listing.maker
        &&& !self.maker_ata.frozen
        &&& self.vault.mint == self.nft_mint_addr
        &&& self.vault.authority == self.listing_addr
        &&& !self.vault.frozen
    }

    /// The error `withdraw_nft` reports, if any, in check order.
    pub open spec fn spec_withdraw_nft_err(self) -> Option<MarketError> {
        if self.signer != self.listing.maker {
            Some(MarketError::NotMaker)
        } else if self.vault.amount < 1 {
            Some(MarketError::Token(TokenError::InsufficientBalance))
        } else if self.maker_ata.amount + 1 > u64::MAX {
            Some(MarketError::Token(TokenError::Overflow))
        } else {
            None
        }
    }

    /// Return the listed NFT unit from the vault to the maker, signed by
    /// the listing's derived address. Only the maker may direct it.
    pub fn withdraw_nft(&mut self) -> (r: Result<(), MarketError>)
        requires
            old(self).wf(),
        ensures
            final(self).wf(),
            match r {
                Ok(_) => old(self).spec_withdraw_nft_err() is None && *final(self) == (Delist {
                    vault: TokenAccount {
                        amount: (old(self).vault.amount - 1) as u64,
                        ..old(self).vault
                    },
                    maker_ata: TokenAccount {
                        amount: (old(self).maker_ata.amount + 1) as u64,
                        ..old(self).maker_ata
                    },
                    ..*old(self)
                }),
                Err(e) => old(self).spec_withdraw_nft_err() == Some(e) && *final(self) == *old(
                    self,
                ),
            },
    {
        if self.signer != self.listing.maker {
            return Err(MarketError::NotMaker);
        }
        if self.vault.amount < 1 {
            return Err(MarketError::Token(TokenError::InsufficientBalance));
        }
        if self.maker_ata.amount > u64::MAX - 1 {
            return Err(MarketError::Token(TokenError::Overflow));
        }
        let nft_mint_addr = self.nft_mint_addr;
        let decimals = self.nft_mint.decimals;
        let listing_addr = self.listing_addr;
        if let Err(e) = transfer_checked(
            &mut self.vault,
            &mut self.maker_ata,
            &nft_mint_addr,
            &self.nft_mint,
            1,
            decimals,
            &listing_addr,
        ) {
            return Err(MarketError::Token(e));
        }
        Ok(())
    }

    /// The error `close_vault` reports, if any, in check order.
    pub open spec fn spec_close_vault_err(self) -> Option<MarketError> {
        if self.signer != self.listing.maker {
            Some(MarketError::NotMaker)
        } else if self.vault.amount != 0 {
            Some(MarketError::Token(TokenError::NonZeroBalance))
        } else if self.maker_lamports + self.vault.rent + self.listing_rent > u64::MAX {
            Some(MarketError::Token(TokenError::Overflow))
        } else {
            None
        }
    }

    /// Close the emptied vault and the listing record, refunding both rents
    /// to the maker.
    pub fn close_vault(&mut self) -> (r: Result<(), MarketError>)
        requires
            old(self).wf(),
            !old(self).vault_closed,
            !old(self).listing_closed,
        ensures
            match r {
                Ok(_) => old(self).spec_close_vault_err() is None && *final(self) == (Delist {
                    vault: TokenAccount { amount: 0, rent: 0, ..old(self).vault },
                    maker_lamports: (old(self).maker_lamports + old(self).vault.rent + old(
                        self,
                    ).listing_rent) as u64,
                    listing_rent: 0,
                    vault_closed: true,
                    listing_closed: true,
                    ..*old(self)
                }),
                Err(e) => old(self).spec_close_vault_err() == Some(e) && *final(self) == *old(
                    self,
                ),
            },
    {
        if self.signer != self.listing.maker {
            return Err(MarketError::NotMaker);
        }
        if self.vault.amount != 0 {
            return Err(MarketError::Token(TokenError::NonZeroBalance));
        }
        if self.vault.rent > u64::MAX - self.maker_lamports || self.listing_rent > u64::MAX - (
        self.maker_lamports + self.vault.rent) {
            return Err(MarketError::Token(TokenError::Overflow));
        }
        let listing_addr = self.listing_addr;
        if let Err(e) = close_account(&mut self.vault, &mut self.maker_lamports, &listing_addr) {
            return Err(MarketError::Token(e));
        }
        self.maker_lamports = self.maker_lamports + self.listing_rent;
        self.listing_rent = 0;
        self.vault_closed = true;
        self.listing_closed = true;
        Ok(())
    }
}

/// Accounts of the purchase instruction.
pub struct Purchase {
    pub taker: Address,
    pub taker_lamports: u64,
    pub maker_lamports: u64,
    pub treasury_lamports: u64,
    pub marketplace: Marketplace,
    pub marketplace_addr: Address,
    pub listing: Listing,
    pub listing_addr: Address,
    pub listing_rent: u64,
    pub nft_mint_addr: Address,
    pub nft_mint: TokenMint,
    pub vault: TokenAccount,
    pub taker_ata: TokenAccount,
    pub rewards_mint_addr: Address,
    pub rewards_mint: TokenMint,
    pub rewards_ata: TokenAccount,
    pub vault_closed: bool,
    pub listing_closed: bool,
}

impl Purchase {
    pub open spec fn wf(self) -> bool {
        &&& self.marketplace.wf()
        &&& self.vault.mint == self.nft_mint_addr
        &&& self.vault.authority == self.listing_addr
        &&& !self.vault.frozen
        &&& self.taker_ata.mint == self.nft_mint_addr
        &&& self.taker_ata.authority == self.taker
        &&& !self.taker_ata.frozen
        &&& self.rewards_ata.mint == self.rewards_mint_addr
        &&& self.rewards_ata.authority == self.taker
        &&& !self.rewards_ata.frozen
        &&& self.rewards_mint.mint_authority == self.marketplace_addr
    }

    /// The fee the treasury takes on this purchase.
    pub open spec fn spec_fee(self) -> int {
        spec_bps(self.listing.price as int, self.marketplace.fee as int)
    }

    /// The error `transfer_sol` reports, if any, in check order.
    pub open spec fn spec_transfer_sol_err(self) -> Option<MarketError> {
        let fee = self.spec_fee();
        if self.taker_lamports < self.listing.price {
            Some(MarketError::Token(TokenError::InsufficientBalance))
        } else if self.treasury_lamports + fee > u64::MAX {
            Some(MarketError::Token(TokenError::Overflow))
        } else if self.maker_lamports + (self.listing.price - fee) > u64::MAX {
            Some(MarketError::Token(TokenError::Overflow))
        } else {
            None
        }
    }

    /// Split the price: the fee `⌊price·fee_bps/10_000⌋` goes from the
    /// taker to the treasury, the remainder to the maker.
    pub fn transfer_sol(&mut self) -> (r: Result<(), MarketError>)
        requires
            old(self).wf(),
        ensures
            final(self).wf(),
            match r {
                Ok(_) => old(self).spec_transfer_sol_err() is None && *final(self) == (Purchase {
                    taker_lamports: (old(self).taker_lamports - old(self).listing.price) as u64,
                    treasury_lamports: (old(self).treasury_lamports + old(self).spec_fee()) as u64,
                    maker_lamports: (old(self).maker_lamports + old(self).listing.price - old(
                        self,
                    ).spec_fee()) as u64,
                    ..*old(self)
                }),
                Err(e) => old(self).spec_transfer_sol_err() == Some(e) && *final(self) == *old(
                    self,
                ),
            },
    {
        let price = self.listing.price;
        let fee: u64 = bps_fee(price, self.marketplace.fee);
        let to_maker: u64 = price - fee;
        if self.taker_lamports < price {
            return Err(MarketError::Token(TokenError::InsufficientBalance));
        }
        if fee > u64::MAX - self.treasury_lamports {
            return Err(MarketError::Token(TokenError::Overflow));
        }
        if to_maker > u64::MAX - self.maker_lamports {
            return Err(MarketError::Token(TokenError::Overflow));
        }
        if let Err(e) = native_transfer(&mut self.taker_lamports, &mut self.treasury_lamports, fee) {
            return Err(MarketError::Token(e));
        }
        if let Err(e) = native_transfer(&mut self.taker_lamports, &mut self.maker_lamports, to_maker) {
            return Err(MarketError::Token(e));
        }
        Ok(())
    }

    /// The error `transfer_nft` reports, if any, in check order.
    pub open spec fn spec_transfer_nft_err(self) -> Option<MarketError> {
        if self.vault.amount < 1 {
            Some(MarketError::Token(TokenError::InsufficientBalance))
        } else if self.taker_ata.amount + 1 > u64::MAX {
            Some(MarketError::Token(TokenError::Overflow))
        } else if self.rewards_mint.supply + 1 > u64::MAX || self.rewards_ata.amount + 1
            > u64::MAX {
            Some(MarketError::Token(TokenError::Overflow))
        } else {
            None
        }
    }

    /// Hand the NFT unit from the vault to the taker (signed by the listing
    /// address) and mint one reward token to the taker (signed by the
    /// marketplace address).
    pub fn transfer_nft(&mut self) -> (r: Result<(), MarketError>)
        requires
            old(self).wf(),
        ensures
            final(self).wf(),
            match r {
                Ok(_) => old(self).spec_transfer_nft_err() is None && *final(self) == (Purchase {
                    vault: TokenAccount {
                        amount: (old(self).vault.amount - 1) as u64,
                        ..old(self).vault
                    },
                    taker_ata: TokenAccount {
                        amount: (old(self).taker_ata.amount + 1) as u64,
                        ..old(self).taker_ata
                    },
                    rewards_mint: TokenMint {
                        supply: (old(self).rewards_mint.supply + 1) as u64,
                        ..old(self).rewards_mint
                    },
                    rewards_ata: TokenAccount {
                        amount: (old(self).rewards_ata.amount + 1) as u64,
                        ..old(self).rewards_ata
                    },
                    ..*old(self)
                }),
                Err(e) => old(self).spec_transfer_nft_err() == Some(e) && *final(self) == *old(
                    self,
                ),
            },
    {
        if self.vault.amount < 1 {
            return Err(MarketError::Token(TokenError::InsufficientBalance));
        }
        if self.taker_ata.amount > u64::MAX - 1 {
            return Err(MarketError::Token(TokenError::Overflow));
        }
        if self.rewards_mint.supply > u64::MAX - 1 || self.rewards_ata.amount > u64::MAX - 1 {
            return Err(MarketError::Token(TokenError::Overflow));
        }
        let nft_mint_addr = self.nft_mint_addr;
        let decimals = self.nft_mint.decimals;
        let listing_addr = self.listing_addr;
        if let Err(e) = transfer_checked(
            &mut self.vault,
            &mut self.taker_ata,
            &nft_mint_addr,
            &self.nft_mint,
            1,
            decimals,
            &listing_addr,
        ) {
            return Err(MarketError::Token(e));
        }
        let rewards_mint_addr = self.rewards_mint_addr;
        let marketplace_addr = self.marketplace_addr;
        if let Err(e) = mint_to(
            &rewards_mint_addr,
            &mut self.rewards_mint,
            &mut self.rewards_ata,
            1,
            &marketplace_addr,
        ) {
            return Err(MarketError::Token(e));
        }
        Ok(())
    }

    /// The error `close_vault` reports, if any, in check order.
    pub open spec fn spec_close_vault_err(self) -> Option<MarketError> {
        if self.vault.amount != 0 {
            Some(MarketError::Token(TokenError::NonZeroBalance))
        } else if self.maker_lamports + self.vault.rent + self.listing_rent > u64::MAX {
            Some(MarketError::Token(TokenError::Overflow))
        } else {
            None
        }
    }

    /// Close the emptied vault and the listing record, refunding both rents
    /// to the maker.
    pub fn close_vault(&mut self) -> (r: Result<(), MarketError>)
        requires
            old(self).wf(),
            !old(self).vault_closed,
            !old(self).listing_closed,
        ensures
            match r {
                Ok(_) => old(self).spec_close_vault_err() is None && *final(self) == (Purchase {
                    vault: TokenAccount { amount: 0, rent: 0, ..old(self).vault },
                    maker_lamports: (old(self).maker_lamports + old(self).vault.rent + old(
                        self,
                    ).listing_rent) as u64,
                    listing_rent: 0,
                    vault_closed: true,
                    listing_closed: true,
                    ..*old(self)
                }),
                Err(e) => old(self).spec_close_vault_err() == Some(e) && *final(self) == *old(
                    self,
                ),
            },
    {
        if self.vault.amount != 0 {
            return Err(MarketError::Token(TokenError::NonZeroBalance));
        }
        if self.vault.rent > u64::MAX - self.maker_lamports || self.listing_rent > u64::MAX - (
        self.maker_lamports + self.vault.rent) {
            return Err(MarketError::Token(TokenError::Overflow));
        }
        let listing_addr = self.listing_addr;
        if let Err(e) = close_account(&mut self.vault, &mut self.maker_lamports, &listing_addr) {
            return Err(MarketError::Token(e));
        }
        self.maker_lamports = self.maker_lamports + self.listing_rent;
        self.listing_rent = 0;
        self.vault_closed = true;
        self.listing_closed = true;
        Ok(())
    }
}

} // verus!

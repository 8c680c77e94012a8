//! Token and native-transfer façade.
//!
//! The cores mutate model token accounts, mints and native (lamport)
//! balances through this narrow interface. Every primitive either commits
//! its whole effect or leaves both sides unchanged and reports why.

use vstd::prelude::*;

use crate::keys::Address;

verus! {

/// Failure of a token or native-transfer primitive.
#[derive(Clone, Copy, PartialEq, Eq, Structural, Debug)]
pub enum TokenError {
    InsufficientBalance,
    Overflow,
    Underflow,
    WrongMint,
    DecimalMismatch,
    WrongAuthority,
    AccountFrozen,
    NotFrozen,
    NonZeroBalance,
}

/// A fungible-token balance account. `rent` is the lamport balance the
/// account itself holds, refunded to a destination when it is closed.
#[derive(Clone, Copy, PartialEq, Eq, Structural, Debug)]
pub struct TokenAccount {
    pub mint: Address,
    pub authority: Address,
    pub amount: u64,
    pub delegate: Option<Address>,
    pub delegated_amount: u64,
    pub frozen: bool,
    pub rent: u64,
}

/// A fungible-token class.
#[derive(Clone, Copy, PartialEq, Eq, Structural, Debug)]
pub struct TokenMint {
    pub supply: u64,
    pub decimals: u8,
    pub mint_authority: Address,
}

pub open spec fn spec_transfer_checked_err(
    from: TokenAccount,
    to: TokenAccount,
    mint_addr: Address,
    mint: TokenMint,
    amount: u64,
    decimals: u8,
    auth: Address,
) -> Option<TokenError> {
    if from.mint != mint_addr || to.mint != mint_addr {
        Some(TokenError::WrongMint)
    } else if decimals != mint.decimals {
        Some(TokenError::DecimalMismatch)
    } else if auth != from.authority {
        Some(TokenError::WrongAuthority)
    } else if from.frozen || to.frozen {
        Some(TokenError::AccountFrozen)
    } else if from.amount < amount {
        Some(TokenError::InsufficientBalance)
    } else if to.amount + amount > u64::MAX {
        Some(TokenError::Overflow)
    } else {
        None
    }
}

/// Checked transfer of `amount` tokens of `mint` from `from` to `to`,
/// directed by `auth` (the resolved signer or derived authority).
pub fn transfer_checked(
    from: &mut TokenAccount,
    to: &mut TokenAccount,
    mint_addr: &Address,
    mint: &TokenMint,
    amount: u64,
    decimals: u8,
    auth: &Address,
) -> (r: Result<(), TokenError>)
    ensures
        match spec_transfer_checked_err(*old(from), *old(to), *mint_addr, *mint, amount, decimals, *auth) {
            Some(e) => r == Err::<(), TokenError>(e) && *final(from) == *old(from) && *final(to)
                == *old(to),
            None => r == Ok::<(), TokenError>(()) && *final(from) == (TokenAccount {
                amount: (old(from).amount - amount) as u64,
                ..*old(from)
            }) && *final(to) == (TokenAccount { amount: (old(to).amount + amount) as u64, ..*old(to) }),
        },
{
    if from.mint != *mint_addr || to.mint != *mint_addr {
        return Err(TokenError::WrongMint);
    }
    if decimals != mint.decimals {
        return Err(TokenError::DecimalMismatch);
    }
    if *auth != from.authority {
        return Err(TokenError::WrongAuthority);
    }
    if from.frozen || to.frozen {
        return Err(TokenError::AccountFrozen);
    }
    if from.amount < amount {
        return Err(TokenError::InsufficientBalance);
    }
    if amount > u64::MAX - to.amount {
        return Err(TokenError::Overflow);
    }
    from.amount = from.amount - amount;
    to.amount = to.amount + amount;
    Ok(())
}

pub open spec fn spec_mint_to_err(
    mint: TokenMint,
    to: TokenAccount,
    mint_addr: Address,
    amount: u64,
    auth: Address,
) -> Option<TokenError> {
    if auth != mint.mint_authority {
        Some(TokenError::WrongAuthority)
    } else if to.mint != mint_addr {
        Some(TokenError::WrongMint)
    } else if to.frozen {
        Some(TokenError::AccountFrozen)
    } else if mint.supply + amount > u64::MAX || to.amount + amount > u64::MAX {
        Some(TokenError::Overflow)
    } else {
        None
    }
}

/// Mint `amount` new tokens to `to`; only the mint's authority may direct it.
pub fn mint_to(
    mint_addr: &Address,
    mint: &mut TokenMint,
    to: &mut TokenAccount,
    amount: u64,
    auth: &Address,
) -> (r: Result<(), TokenError>)
    ensures
        match spec_mint_to_err(*old(mint), *old(to), *mint_addr, amount, *auth) {
            Some(e) => r == Err::<(), TokenError>(e) && *final(mint) == *old(mint) && *final(to)
                == *old(to),
            None => r == Ok::<(), TokenError>(()) && *final(mint) == (TokenMint {
                supply: (old(mint).supply + amount) as u64,
                ..*old(mint)
            }) && *final(to) == (TokenAccount { amount: (old(to).amount + amount) as u64, ..*old(to) }),
        },
{
    if *auth != mint.mint_authority {
        return Err(TokenError::WrongAuthority);
    }
    if to.mint != *mint_addr {
        return Err(TokenError::WrongMint);
    }
    if to.frozen {
        return Err(TokenError::AccountFrozen);
    }
    if amount > u64::MAX - mint.supply || amount > u64::MAX - to.amount {
        return Err(TokenError::Overflow);
    }
    mint.supply = mint.supply + amount;
    to.amount = to.amount + amount;
    Ok(())
}

pub open spec fn spec_burn_err(
    mint: TokenMint,
    from: TokenAccount,
    mint_addr: Address,
    amount: u64,
    auth: Address,
) -> Option<TokenError> {
    if from.mint != mint_addr {
        Some(TokenError::WrongMint)
    } else if auth != from.authority {
        Some(TokenError::WrongAuthority)
    } else if from.frozen {
        Some(TokenError::AccountFrozen)
    } else if from.amount < amount {
        Some(TokenError::InsufficientBalance)
    } else if mint.supply < amount {
        Some(TokenError::Underflow)
    } else {
        None
    }
}

/// Burn `amount` tokens from `from`; only the account's authority may direct it.
pub fn burn(
    mint_addr: &Address,
    mint: &mut TokenMint,
    from: &mut TokenAccount,
    amount: u64,
    auth: &Address,
) -> (r: Result<(), TokenError>)
    ensures
        match spec_burn_err(*old(mint), *old(from), *mint_addr, amount, *auth) {
            Some(e) => r == Err::<(), TokenError>(e) && *final(mint) == *old(mint) && *final(from)
                == *old(from),
            None => r == Ok::<(), TokenError>(()) && *final(mint) == (TokenMint {
                supply: (old(mint).supply - amount) as u64,
                ..*old(mint)
            }) && *final(from) == (TokenAccount {
                amount: (old(from).amount - amount) as u64,
                ..*old(from)
            }),
        },
{
    if from.mint != *mint_addr {
        return Err(TokenError::WrongMint);
    }
    if *auth != from.authority {
        return Err(TokenError::WrongAuthority);
    }
    if from.frozen {
        return Err(TokenError::AccountFrozen);
    }
    if from.amount < amount {
        return Err(TokenError::InsufficientBalance);
    }
    if mint.supply < amount {
        return Err(TokenError::Underflow);
    }
    mint.supply = mint.supply - amount;
    from.amount = from.amount - amount;
    Ok(())
}

/// Delegate `amount`-capped control of `acc` to `delegate`.
pub fn approve(acc: &mut TokenAccount, delegate: &Address, auth: &Address, amount: u64) -> (r: Result<
    (),
    TokenError,
>)
    ensures
        match r {
            Ok(_) => *auth == old(acc).authority && !old(acc).frozen && *final(acc)
                == (TokenAccount {
                delegate: Some(*delegate),
                delegated_amount: amount,
                ..*old(acc)
            }),
            Err(e) => *final(acc) == *old(acc) && ((*auth != old(acc).authority && e
                == TokenError::WrongAuthority) || (*auth == old(acc).authority && old(acc).frozen
                && e == TokenError::AccountFrozen)),
        },
{
    if *auth != acc.authority {
        return Err(TokenError::WrongAuthority);
    }
    if acc.frozen {
        return Err(TokenError::AccountFrozen);
    }
    acc.delegate = Some(*delegate);
    acc.delegated_amount = amount;
    Ok(())
}

/// Remove the delegate from `acc`.
pub fn revoke(acc: &mut TokenAccount, auth: &Address) -> (r: Result<(), TokenError>)
    ensures
        match r {
            Ok(_) => *auth == old(acc).authority && *final(acc) == (TokenAccount {
                delegate: None,
                delegated_amount: 0,
                ..*old(acc)
            }),
            Err(e) => *final(acc) == *old(acc) && *auth != old(acc).authority && e
                == TokenError::WrongAuthority,
        },
{
    if *auth != acc.authority {
        return Err(TokenError::WrongAuthority);
    }
    acc.delegate = None;
    acc.delegated_amount = 0;
    Ok(())
}

/// Freeze a delegated token account; models the metadata program's freeze of
/// a delegated account, directed by the delegate.
pub fn freeze_delegated(acc: &mut TokenAccount, delegate: &Address) -> (r: Result<(), TokenError>)
    ensures
        match r {
            Ok(_) => old(acc).delegate == Some(*delegate) && !old(acc).frozen && *final(acc)
                == (TokenAccount { frozen: true, ..*old(acc) }),
            Err(e) => *final(acc) == *old(acc) && ((old(acc).delegate != Some(*delegate) && e
                == TokenError::WrongAuthority) || (old(acc).delegate == Some(*delegate) && old(
                acc,
            ).frozen && e == TokenError::AccountFrozen)),
        },
{
    let matches_delegate: bool = match &acc.delegate {
        Some(d) => *d == *delegate,
        None => false,
    };
    if !matches_delegate {
        return Err(TokenError::WrongAuthority);
    }
    if acc.frozen {
        return Err(TokenError::AccountFrozen);
    }
    acc.frozen = true;
    Ok(())
}

/// Thaw a frozen delegated token account, directed by the delegate.
pub fn thaw_delegated(acc: &mut TokenAccount, delegate: &Address) -> (r: Result<(), TokenError>)
    ensures
        match r {
            Ok(_) => old(acc).delegate == Some(*delegate) && old(acc).frozen && *final(acc)
                == (TokenAccount { frozen: false, ..*old(acc) }),
            Err(e) => *final(acc) == *old(acc) && ((old(acc).delegate != Some(*delegate) && e
                == TokenError::WrongAuthority) || (old(acc).delegate == Some(*delegate) && !old(
                acc,
            ).frozen && e == TokenError::NotFrozen)),
        },
{
    let matches_delegate: bool = match &acc.delegate {
        Some(d) => *d == *delegate,
        None => false,
    };
    if !matches_delegate {
        return Err(TokenError::WrongAuthority);
    }
    if !acc.frozen {
        return Err(TokenError::NotFrozen);
    }
    acc.frozen = false;
    Ok(())
}

/// Close a token account: requires a zero token balance; its rent lamports
/// go to `dest_lamports`.
pub fn close_account(acc: &mut TokenAccount, dest_lamports: &mut u64, auth: &Address) -> (r: Result<
    (),
    TokenError,
>)
    ensures
        match r {
            Ok(_) => *auth == old(acc).authority && old(acc).amount == 0 && old(dest_lamports)
                + old(acc).rent <= u64::MAX && *final(acc) == (TokenAccount {
                rent: 0,
                ..*old(acc)
            }) && *final(dest_lamports) == old(dest_lamports) + old(acc).rent,
            Err(e) => *final(acc) == *old(acc) && *final(dest_lamports) == *old(dest_lamports) && (
            (*auth != old(acc).authority && e == TokenError::WrongAuthority) || (*auth == old(
                acc,
            ).authority && old(acc).amount != 0 && e == TokenError::NonZeroBalance) || (*auth
                == old(acc).authority && old(acc).amount == 0 && old(dest_lamports) + old(acc).rent
                > u64::MAX && e == TokenError::Overflow)),
        },
{
    if *auth != acc.authority {
        return Err(TokenError::WrongAuthority);
    }
    if acc.amount != 0 {
        return Err(TokenError::NonZeroBalance);
    }
    if acc.rent > u64::MAX - *dest_lamports {
        return Err(TokenError::Overflow);
    }
    *dest_lamports = *dest_lamports + acc.rent;
    acc.rent = 0;
    Ok(())
}

/// Native (lamport) transfer between two balances.
pub fn native_transfer(from_lamports: &mut u64, to_lamports: &mut u64, amount: u64) -> (r: Result<
    (),
    TokenError,
>)
    ensures
        match r {
            Ok(_) => amount <= *old(from_lamports) && *old(to_lamports) + amount <= u64::MAX
                && *final(from_lamports) == *old(from_lamports) - amount && *final(to_lamports)
                == *old(to_lamports) + amount,
            Err(e) => *final(from_lamports) == *old(from_lamports) && *final(to_lamports) == *old(
                to_lamports,
            ) && ((amount > *old(from_lamports) && e == TokenError::InsufficientBalance) || (amount
                <= *old(from_lamports) && *old(to_lamports) + amount > u64::MAX && e
                == TokenError::Overflow)),
        },
{
    if amount > *from_lamports {
        return Err(TokenError::InsufficientBalance);
    }
    if amount > u64::MAX - *to_lamports {
        return Err(TokenError::Overflow);
    }
    *from_lamports = *from_lamports - amount;
    *to_lamports = *to_lamports + amount;
    Ok(())
}

} // verus!

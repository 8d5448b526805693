//! Token accounts and the two token operations the escrow relies on: a
//! checked transfer and closing an empty account.
use vstd::prelude::*;

use crate::address::Address;
use crate::error::{outcome, EscrowError};

verus! {

/// A token type and the number of decimals its amounts carry.
#[derive(Clone, Copy, Debug)]
pub struct Mint {
    pub address: Address,
    pub decimals: u8,
}

/// An account that holds `amount` tokens of `mint` for `owner`.
#[derive(Clone, Copy, Debug)]
pub struct TokenAccount {
    pub mint: Address,
    pub owner: Address,
    pub amount: u64,
}

impl TokenAccount {
    /// A new, empty account of `owner` for `mint`.
    pub fn empty(mint: Address, owner: Address) -> (r: TokenAccount)
        ensures
            r == (TokenAccount { mint, owner, amount: 0 }),
    {
        TokenAccount { mint, owner, amount: 0 }
    }
}

/// The account `acct`, or a new empty one of `owner` for `mint` where there is none.
pub open spec fn opened(acct: Option<TokenAccount>, mint: Address, owner: Address) -> TokenAccount {
    match acct {
        Some(a) => a,
        None => TokenAccount { mint, owner, amount: 0 },
    }
}

/// Why `acct` is not an account of `owner` for `mint`, if it is not.
pub open spec fn account_error(acct: TokenAccount, mint: Address, owner: Address) -> Option<EscrowError> {
    if acct.mint@ != mint@ {
        Some(EscrowError::MintMismatch)
    } else if acct.owner@ != owner@ {
        Some(EscrowError::OwnerMismatch)
    } else {
        None
    }
}

/// Why a checked transfer of `amount` from `from` to `to`, signed by
/// `authority`, is refused, if it is.
pub open spec fn transfer_error(
    from: TokenAccount,
    to: TokenAccount,
    mint: Mint,
    authority: Address,
    amount: u64,
    decimals: u8,
) -> Option<EscrowError> {
    if from.mint@ != mint.address@ || to.mint@ != mint.address@ {
        Some(EscrowError::MintMismatch)
    } else if decimals != mint.decimals {
        Some(EscrowError::DecimalsMismatch)
    } else if from.owner@ != authority@ {
        Some(EscrowError::OwnerMismatch)
    } else if from.amount < amount {
        Some(EscrowError::InsufficientFunds)
    } else if to.amount + amount > u64::MAX {
        Some(EscrowError::Overflow)
    } else {
        None
    }
}

/// The account with `amount` in place of its balance.
pub open spec fn with_amount(acct: TokenAccount, amount: int) -> TokenAccount {
    TokenAccount { amount: amount as u64, ..acct }
}

/// Checks that `acct` is an account of `owner` for `mint`.
pub fn check_account(acct: &TokenAccount, mint: &Address, owner: &Address) -> (r: Result<(), EscrowError>)
    ensures
        r == outcome(account_error(*acct, *mint, *owner)),
{
    if !acct.mint.same(mint) {
        Err(EscrowError::MintMismatch)
    } else if !acct.owner.same(owner) {
        Err(EscrowError::OwnerMismatch)
    } else {
        Ok(())
    }
}

/// Checks, without moving anything, whether a checked transfer would go through.
pub fn check_transfer(
    from: &TokenAccount,
    to: &TokenAccount,
    mint: &Mint,
    authority: &Address,
    amount: u64,
    decimals: u8,
) -> (r: Result<(), EscrowError>)
    ensures
        r == outcome(transfer_error(*from, *to, *mint, *authority, amount, decimals)),
{
    if !from.mint.same(&mint.address) || !to.mint.same(&mint.address) {
        Err(EscrowError::MintMismatch)
    } else if decimals != mint.decimals {
        Err(EscrowError::DecimalsMismatch)
    } else if !from.owner.same(authority) {
        Err(EscrowError::OwnerMismatch)
    } else if from.amount < amount {
        Err(EscrowError::InsufficientFunds)
    } else if to.amount > u64::MAX - amount {
        Err(EscrowError::Overflow)
    } else {
        Ok(())
    }
}

/// Moves `amount` tokens from `from` to `to`, signed by `authority`: the
/// mint and decimals must be those of both accounts, the authority must own
/// the source and the source must hold the amount. Delegates and frozen
/// accounts are not modelled: the token program may still refuse a transfer
/// that this allows.
pub fn transfer_checked(
    from: &mut TokenAccount,
    to: &mut TokenAccount,
    mint: &Mint,
    authority: &Address,
    amount: u64,
    decimals: u8,
) -> (r: Result<(), EscrowError>)
    ensures
        r == outcome(transfer_error(*old(from), *old(to), *mint, *authority, amount, decimals)),
        r is Ok ==> *final(from) == with_amount(*old(from), old(from).amount - amount),
        r is Ok ==> *final(to) == with_amount(*old(to), old(to).amount + amount),
        r is Err ==> *final(from) == *old(from) && *final(to) == *old(to),
{
    let r = check_transfer(from, to, mint, authority, amount, decimals);
    if r.is_ok() {
        from.amount = from.amount - amount;
        to.amount = to.amount + amount;
    }
    r
}

/// Closes `acct`, signed by `authority`: only its owner may, and only once it is empty.
pub fn close_account(acct: &mut Option<TokenAccount>, authority: &Address) -> (r: Result<(), EscrowError>)
    ensures
        r == outcome(close_error(*old(acct), *authority)),
        r is Ok ==> (*final(acct)) is None,
        r is Err ==> *final(acct) == *old(acct),
{
    match acct {
        None => Err(EscrowError::VaultAbsent),
        Some(a) => {
            if a.amount != 0 {
                Err(EscrowError::NonZeroBalance)
            } else if !a.owner.same(authority) {
                Err(EscrowError::OwnerMismatch)
            } else {
                *acct = None;
                Ok(())
            }
        },
    }
}

/// Why closing `acct` with `authority` is refused, if it is.
pub open spec fn close_error(acct: Option<TokenAccount>, authority: Address) -> Option<EscrowError> {
    match acct {
        None => Some(EscrowError::VaultAbsent),
        Some(a) => if a.amount != 0 {
            Some(EscrowError::NonZeroBalance)
        } else if a.owner@ != authority@ {
            Some(EscrowError::OwnerMismatch)
        } else {
            None
        },
    }
}

} // verus!

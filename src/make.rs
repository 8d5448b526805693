//! Opening an offer: the record is created at the address its seed derives,
//! with a vault owned by that address, and the maker's deposit moves in.
use vstd::prelude::*;

use crate::address::Address;
use crate::authority::{escrow_address_of, escrow_bump, find_escrow_address};
use crate::error::{first, outcome, EscrowError};
use crate::state::EscrowState;
use crate::token::{
    account_error, check_account, check_transfer, transfer_checked, transfer_error,
    with_amount, Mint, TokenAccount,
};

verus! {

/// The accounts that opening an offer reads and writes. Each field is a
/// distinct account; `None` stands for an account that does not exist yet.
#[derive(Clone, Copy, Debug)]
pub struct Make {
    pub program_id: Address,
    /// The signer, who deposits the first token.
    pub maker: Address,
    pub mint_a: Mint,
    pub mint_b: Mint,
    pub maker_mint_a_ata: TokenAccount,
    pub escrow_address: Address,
    pub escrow: Option<EscrowState>,
    pub vault: Option<TokenAccount>,
}

impl Make {
    /// Why the accounts cannot hold a new record with `seed`, if they cannot:
    /// the record and the vault must not exist yet, a bump must derive the
    /// record's address, and the maker's account must hold the first token.
    pub open spec fn accounts_error(self, seed: u64) -> Option<EscrowError> {
        if self.escrow is Some || self.vault is Some {
            Some(EscrowError::AccountInUse)
        } else {
            match escrow_bump(self.program_id@, self.maker@, seed) {
                None => Some(EscrowError::NoViableBump),
                Some(b) => if escrow_address_of(self.program_id@, self.maker@, seed, b) != Some(
                    self.escrow_address@,
                ) {
                    Some(EscrowError::SeedsMismatch)
                } else {
                    account_error(self.maker_mint_a_ata, self.mint_a.address, self.maker)
                },
            }
        }
    }

    /// The vault as it is opened: empty, owned by the record's address.
    pub open spec fn new_vault(self) -> TokenAccount {
        TokenAccount { mint: self.mint_a.address, owner: self.escrow_address, amount: 0 }
    }

    /// Why the deposit cannot move into a vault, if it cannot.
    pub open spec fn deposit_error(self, amount: u64) -> Option<EscrowError> {
        transfer_error(self.maker_mint_a_ata, self.new_vault(), self.mint_a, self.maker, amount, self.mint_a.decimals)
    }

    /// Why opening the offer is refused, if it is.
    pub open spec fn make_error(self, seed: u64, deposit: u64) -> Option<EscrowError> {
        first(self.accounts_error(seed), self.deposit_error(deposit))
    }

    /// The record that opening the offer writes.
    pub open spec fn new_state(self, seed: u64, receive_amount: u64, bump: u8) -> EscrowState {
        EscrowState {
            seed,
            maker: self.maker,
            mint_a: self.mint_a.address,
            mint_b: self.mint_b.address,
            receive_amount,
            bump,
        }
    }

    /// The accounts once the offer is open and `deposit` has moved into the vault.
    pub open spec fn made(self, seed: u64, receive_amount: u64, deposit: u64) -> Make {
        let b = escrow_bump(self.program_id@, self.maker@, seed).unwrap();
        Make {
            escrow: Some(self.new_state(seed, receive_amount, b)),
            vault: Some(with_amount(self.new_vault(), deposit as int)),
            maker_mint_a_ata: with_amount(self.maker_mint_a_ata, self.maker_mint_a_ata.amount - deposit),
            ..self
        }
    }

    /// Checks the accounts for a new record with `seed`, and returns the bump
    /// that derives its address.
    pub fn validate(&self, seed: u64) -> (r: Result<u8, EscrowError>)
        ensures
            r is Ok <==> self.accounts_error(seed) is None,
            r matches Err(e) ==> self.accounts_error(seed) == Some(e),
            r matches Ok(b) ==> escrow_bump(self.program_id@, self.maker@, seed) == Some(b),
    {
        if self.escrow.is_some() || self.vault.is_some() {
            return Err(EscrowError::AccountInUse);
        }
        let (a, b) = match find_escrow_address(&self.program_id, &self.maker, seed) {
            Some(found) => found,
            None => return Err(EscrowError::NoViableBump),
        };
        if !a.same(&self.escrow_address) {
            return Err(EscrowError::SeedsMismatch);
        }
        match check_account(&self.maker_mint_a_ata, &self.mint_a.address, &self.maker) {
            Ok(()) => Ok(b),
            Err(e) => Err(e),
        }
    }

    /// Writes the record and opens its empty vault.
    pub fn init_escrow_state(&mut self, seed: u64, receive_amount: u64, bump: u8)
        ensures
            *final(self) == (Make {
                escrow: Some(old(self).new_state(seed, receive_amount, bump)),
                vault: Some(old(self).new_vault()),
                ..*old(self)
            }),
    {
        self.escrow = Some(
            EscrowState {
                seed,
                maker: self.maker,
                mint_a: self.mint_a.address,
                mint_b: self.mint_b.address,
                receive_amount,
                bump,
            },
        );
        self.vault = Some(TokenAccount::empty(self.mint_a.address, self.escrow_address));
    }

    /// Moves `amount` of the first token from the maker's account into the
    /// vault, signed by the maker.
    pub fn deposit(&mut self, amount: u64) -> (r: Result<(), EscrowError>)
        requires
            old(self).vault is Some,
        ensures
            r == outcome(
                transfer_error(
                    old(self).maker_mint_a_ata,
                    old(self).vault.unwrap(),
                    old(self).mint_a,
                    old(self).maker,
                    amount,
                    old(self).mint_a.decimals,
                ),
            ),
            r is Ok ==> *final(self) == (Make {
                maker_mint_a_ata: with_amount(old(self).maker_mint_a_ata, old(self).maker_mint_a_ata.amount - amount),
                vault: Some(with_amount(old(self).vault.unwrap(), old(self).vault.unwrap().amount + amount)),
                ..*old(self)
            }),
            r is Err ==> *final(self) == *old(self),
    {
        let mut vault = self.vault.unwrap();
        let r = transfer_checked(
            &mut self.maker_mint_a_ata,
            &mut vault,
            &self.mint_a,
            &self.maker,
            amount,
            self.mint_a.decimals,
        );
        if r.is_ok() {
            self.vault = Some(vault);
        }
        r
    }
}

/// Checks, without changing anything, whether `deposit` could move into the
/// new vault of `ctx`.
pub fn check_deposit(ctx: &Make, deposit: u64) -> (r: Result<(), EscrowError>)
    ensures
        r == outcome(ctx.deposit_error(deposit)),
{
    let vault = TokenAccount::empty(ctx.mint_a.address, ctx.escrow_address);
    check_transfer(&ctx.maker_mint_a_ata, &vault, &ctx.mint_a, &ctx.maker, deposit, ctx.mint_a.decimals)
}

} // verus!

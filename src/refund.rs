//! Cancelling an offer: the vault pays the maker back all it holds, then the
//! vault and the record close.
use vstd::prelude::*;

use crate::address::Address;
use crate::authority::{associated_address_of, associated_token_address, escrow_address, escrow_address_of};
use crate::error::{first, outcome, EscrowError};
use crate::state::EscrowState;
use crate::token::{
    account_error, check_account, close_account, close_error, transfer_checked,
    transfer_error, with_amount, Mint, TokenAccount,
};

verus! {

/// The accounts that cancelling an offer reads and writes. Each field is a
/// distinct account; `None` stands for an account that does not exist.
#[derive(Clone, Copy, Debug)]
pub struct Refund {
    pub program_id: Address,
    /// The signer, who must be the maker stored on the record.
    pub maker: Address,
    pub mint_a: Mint,
    pub maker_mint_a_ata: TokenAccount,
    pub escrow_address: Address,
    pub escrow: Option<EscrowState>,
    /// The address of the vault, which must be the record's associated
    /// token account for the first token.
    pub vault_address: Address,
    pub vault: Option<TokenAccount>,
    /// The token program that keeps the token accounts.
    pub token_program: Address,
    /// The program that derives associated token account addresses.
    pub associated_token_program: Address,
}

impl Refund {
    /// Why the accounts do not fit the record, if they do not: the record must
    /// exist, the signer must be the stored maker, the vault must exist, the mint the
    /// stored one, the record's address the one its bump derives, the vault the
    /// record's associated token account, and each
    /// token account must belong to the right owner for the right mint.
    pub open spec fn accounts_error(self) -> Option<EscrowError> {
        match self.escrow {
            None => Some(EscrowError::RecordAbsent),
            Some(s) => if s.maker@ != self.maker@ {
                Some(EscrowError::Unauthorized)
            } else {
                match self.vault {
                    None => Some(EscrowError::VaultAbsent),
                    Some(v) => if s.mint_a@ != self.mint_a.address@ {
                        Some(EscrowError::RecordMismatch)
                    } else if escrow_address_of(self.program_id@, self.maker@, s.seed, s.bump) != Some(
                        self.escrow_address@,
                    ) {
                        Some(EscrowError::SeedsMismatch)
                    } else if associated_address_of(
                        self.escrow_address@,
                        self.mint_a.address@,
                        self.token_program@,
                        self.associated_token_program@,
                    ) != Some(self.vault_address@) {
                        Some(EscrowError::VaultMismatch)
                    } else {
                        first(
                            account_error(v, self.mint_a.address, self.escrow_address),
                            account_error(self.maker_mint_a_ata, self.mint_a.address, self.maker),
                        )
                    },
                }
            },
        }
    }

    /// Why the vault cannot pay the maker back, if it cannot.
    pub open spec fn withdraw_error(self) -> Option<EscrowError> {
        let v = self.vault.unwrap();
        transfer_error(v, self.maker_mint_a_ata, self.mint_a, self.escrow_address, v.amount, self.mint_a.decimals)
    }

    /// The accounts once the vault has paid all it holds to the maker.
    pub open spec fn withdrawn(self) -> Refund {
        let v = self.vault.unwrap();
        Refund {
            maker_mint_a_ata: with_amount(self.maker_mint_a_ata, self.maker_mint_a_ata.amount + v.amount),
            vault: Some(with_amount(v, 0)),
            ..self
        }
    }

    /// The accounts once the offer is cancelled: paid back, vault and record closed.
    pub open spec fn refunded(self) -> Refund {
        Refund { vault: None, escrow: None, ..self.withdrawn() }
    }

    /// Why cancelling the offer is refused, if it is.
    pub open spec fn refund_error(self) -> Option<EscrowError> {
        first(self.accounts_error(), self.withdraw_error())
    }

    /// Checks the accounts against the record and the signer.
    pub fn validate(&self) -> (r: Result<(), EscrowError>)
        ensures
            r == outcome(self.accounts_error()),
    {
        let s = match self.escrow {
            Some(s) => s,
            None => return Err(EscrowError::RecordAbsent),
        };
        if !s.maker.same(&self.maker) {
            return Err(EscrowError::Unauthorized);
        }
        let v = match self.vault {
            Some(v) => v,
            None => return Err(EscrowError::VaultAbsent),
        };
        if !s.mint_a.same(&self.mint_a.address) {
            return Err(EscrowError::RecordMismatch);
        }
        match escrow_address(&self.program_id, &self.maker, s.seed, s.bump) {
            Some(a) => {
                if !a.same(&self.escrow_address) {
                    return Err(EscrowError::SeedsMismatch);
                }
            },
            None => return Err(EscrowError::SeedsMismatch),
        }
        match associated_token_address(
            &self.escrow_address,
            &self.mint_a.address,
            &self.token_program,
            &self.associated_token_program,
        ) {
            Some(a) => {
                if !a.same(&self.vault_address) {
                    return Err(EscrowError::VaultMismatch);
                }
            },
            None => return Err(EscrowError::VaultMismatch),
        }
        let r = check_account(&v, &self.mint_a.address, &self.escrow_address);
        if r.is_err() {
            return r;
        }
        check_account(&self.maker_mint_a_ata, &self.mint_a.address, &self.maker)
    }

    /// Pays the maker back all the vault holds, signed by the record's
    /// derived authority.
    pub fn withdraw(&mut self) -> (r: Result<(), EscrowError>)
        requires
            old(self).accounts_error() is None,
        ensures
            r == outcome(old(self).withdraw_error()),
            r is Ok ==> *final(self) == old(self).withdrawn(),
            r is Err ==> *final(self) == *old(self),
    {
        let s = self.escrow.unwrap();
        let mut vault = self.vault.unwrap();
        let authority = match escrow_address(&self.program_id, &s.maker, s.seed, s.bump) {
            Some(a) => a,
            None => return Err(EscrowError::SeedsMismatch),
        };
        let amount = vault.amount;
        let r = transfer_checked(
            &mut vault,
            &mut self.maker_mint_a_ata,
            &self.mint_a,
            &authority,
            amount,
            self.mint_a.decimals,
        );
        if r.is_ok() {
            self.vault = Some(vault);
        }
        r
    }

    /// Closes the vault and then the record, signed by the record's derived
    /// authority.
    pub fn close(&mut self) -> (r: Result<(), EscrowError>)
        requires
            old(self).accounts_error() is None,
        ensures
            r == outcome(close_error(old(self).vault, old(self).escrow_address)),
            r is Ok ==> *final(self) == (Refund { vault: None, escrow: None, ..*old(self) }),
            r is Err ==> *final(self) == *old(self),
    {
        let s = self.escrow.unwrap();
        let authority = match escrow_address(&self.program_id, &s.maker, s.seed, s.bump) {
            Some(a) => a,
            None => return Err(EscrowError::SeedsMismatch),
        };
        let r = close_account(&mut self.vault, &authority);
        if r.is_ok() {
            self.escrow = None;
        }
        r
    }
}

} // verus!

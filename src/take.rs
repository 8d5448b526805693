//! Fulfilling an offer: the taker pays the maker in the second token, the
//! vault pays the taker all it holds, then the vault and the record close.
use vstd::prelude::*;

use crate::address::Address;
use crate::authority::{associated_address_of, associated_token_address, escrow_address, escrow_address_of};
use crate::error::{first, outcome, EscrowError};
use crate::state::EscrowState;
use crate::token::{
    account_error, check_account, check_transfer, close_account, close_error, opened,
    transfer_checked, transfer_error, with_amount, Mint, TokenAccount,
};

verus! {

/// Why `acct`, where it exists, is not an account of `owner` for `mint`.
pub open spec fn existing_error(acct: Option<TokenAccount>, mint: Address, owner: Address) -> Option<EscrowError> {
    match acct {
        Some(a) => account_error(a, mint, owner),
        None => None,
    }
}

/// Checks `acct`, where it exists, as an account of `owner` for `mint`.
pub fn check_existing(acct: &Option<TokenAccount>, mint: &Address, owner: &Address) -> (r: Result<(), EscrowError>)
    ensures
        r == outcome(existing_error(*acct, *mint, *owner)),
{
    match acct {
        Some(a) => check_account(a, mint, owner),
        None => Ok(()),
    }
}

/// The accounts that fulfilling an offer reads and writes. Each field is a
/// distinct account; `None` stands for an account that does not exist.
#[derive(Clone, Copy, Debug)]
pub struct Take {
    pub program_id: Address,
    /// The signer, who pays in the second token.
    pub taker: Address,
    pub maker: Address,
    pub mint_a: Mint,
    pub mint_b: Mint,
    /// Opened on demand.
    pub taker_mint_a_ata: Option<TokenAccount>,
    pub taker_mint_b_ata: TokenAccount,
    /// Opened on demand.
    pub maker_mint_b_ata: Option<TokenAccount>,
    pub escrow_address: Address,
    pub escrow: Option<EscrowState>,
    /// The address of the vault, which must be the record's associated
    /// token account for the first token.
    pub vault_address: Address,
    pub vault: Option<TokenAccount>,
    /// The token program that keeps the token accounts.
    pub token_program: Address,
    /// The program that derives associated token account addresses.
    pub associated_token_program: Address,
}

impl Take {
    /// Why the accounts do not fit the record, if they do not: the record and
    /// its vault must exist, the mints and the maker must be the stored ones,
    /// the record's address must be the one its bump derives, the vault must
    /// be the record's associated token account, and each token
    /// account must belong to the right owner for the right mint.
    pub open spec fn accounts_error(self) -> Option<EscrowError> {
        match (self.escrow, self.vault) {
            (None, _) => Some(EscrowError::RecordAbsent),
            (Some(_), None) => Some(EscrowError::VaultAbsent),
            (Some(s), Some(v)) => if s.mint_a@ != self.mint_a.address@ || s.mint_b@
                != self.mint_b.address@ || s.maker@ != self.maker@ {
                Some(EscrowError::RecordMismatch)
            } else if escrow_address_of(self.program_id@, self.maker@, s.seed, s.bump) != Some(
                self.escrow_address@,
            ) {
                Some(EscrowError::SeedsMismatch)
            } else if associated_address_of(
                self.escrow_address@,
                self.mint_a.address@,
                self.token_program@,
                self.associated_token_program@,
            ) != Some(self.vault_address@) {
                Some(EscrowError::VaultMismatch)
            } else {
                first(
                    account_error(v, self.mint_a.address, self.escrow_address),
                    first(
                        account_error(self.taker_mint_b_ata, self.mint_b.address, self.taker),
                        first(
                            existing_error(self.taker_mint_a_ata, self.mint_a.address, self.taker),
                            existing_error(self.maker_mint_b_ata, self.mint_b.address, self.maker),
                        ),
                    ),
                )
            },
        }
    }

    /// The taker's account for the first token, opened if absent.
    pub open spec fn taker_a(self) -> TokenAccount {
        opened(self.taker_mint_a_ata, self.mint_a.address, self.taker)
    }

    /// The maker's account for the second token, opened if absent.
    pub open spec fn maker_b(self) -> TokenAccount {
        opened(self.maker_mint_b_ata, self.mint_b.address, self.maker)
    }

    /// Why the two transfers cannot both go through, if they cannot: the
    /// taker's payment is checked first, then the vault's.
    pub open spec fn withdraw_error(self) -> Option<EscrowError> {
        let s = self.escrow.unwrap();
        let v = self.vault.unwrap();
        first(
            transfer_error(
                self.taker_mint_b_ata,
                self.maker_b(),
                self.mint_b,
                self.taker,
                s.receive_amount,
                self.mint_b.decimals,
            ),
            transfer_error(v, self.taker_a(), self.mint_a, self.escrow_address, v.amount, self.mint_a.decimals),
        )
    }

    /// The accounts once the taker has paid `receive_amount` to the maker and
    /// the vault has paid all it holds to the taker.
    pub open spec fn withdrawn(self) -> Take {
        let s = self.escrow.unwrap();
        let v = self.vault.unwrap();
        Take {
            taker_mint_a_ata: Some(with_amount(self.taker_a(), self.taker_a().amount + v.amount)),
            taker_mint_b_ata: with_amount(self.taker_mint_b_ata, self.taker_mint_b_ata.amount - s.receive_amount),
            maker_mint_b_ata: Some(with_amount(self.maker_b(), self.maker_b().amount + s.receive_amount)),
            vault: Some(with_amount(v, 0)),
            ..self
        }
    }

    /// The accounts once the offer is fulfilled: paid out, vault and record closed.
    pub open spec fn taken(self) -> Take {
        Take { vault: None, escrow: None, ..self.withdrawn() }
    }

    /// Why fulfilling the offer is refused, if it is.
    pub open spec fn take_error(self) -> Option<EscrowError> {
        first(self.accounts_error(), self.withdraw_error())
    }

    /// Checks the accounts against the record.
    pub fn validate(&self) -> (r: Result<(), EscrowError>)
        ensures
            r == outcome(self.accounts_error()),
    {
        let s = match self.escrow {
            Some(s) => s,
            None => return Err(EscrowError::RecordAbsent),
        };
        let v = match self.vault {
            Some(v) => v,
            None => return Err(EscrowError::VaultAbsent),
        };
        if !s.mint_a.same(&self.mint_a.address) || !s.mint_b.same(&self.mint_b.address)
            || !s.maker.same(&self.maker) {
            return Err(EscrowError::RecordMismatch);
        }
        match escrow_address(&self.program_id, &self.maker, s.seed, s.bump) {
            Some(a) => {
                if !a.same(&self.escrow_address) {
                    return Err(EscrowError::SeedsMismatch);
                }
            },
            None => return Err(EscrowError::SeedsMismatch),
        }
        match associated_token_address(
            &self.escrow_address,
            &self.mint_a.address,
            &self.token_program,
            &self.associated_token_program,
        ) {
            Some(a) => {
                if !a.same(&self.vault_address) {
                    return Err(EscrowError::VaultMismatch);
                }
            },
            None => return Err(EscrowError::VaultMismatch),
        }
        let r = check_account(&v, &self.mint_a.address, &self.escrow_address);
        if r.is_err() {
            return r;
        }
        let r = check_account(&self.taker_mint_b_ata, &self.mint_b.address, &self.taker);
        if r.is_err() {
            return r;
        }
        let r = check_existing(&self.taker_mint_a_ata, &self.mint_a.address, &self.taker);
        if r.is_err() {
            return r;
        }
        check_existing(&self.maker_mint_b_ata, &self.mint_b.address, &self.maker)
    }

    /// Pays the maker `receive_amount` of the second token from the taker,
    /// then pays the taker all the vault holds, signed by the record's derived
    /// authority. Both are checked, in that order, before either moves
    /// anything: both go through or neither does.
    pub fn withdraw(&mut self) -> (r: Result<(), EscrowError>)
        requires
            old(self).accounts_error() is None,
        ensures
            r == outcome(old(self).withdraw_error()),
            r is Ok ==> *final(self) == old(self).withdrawn(),
            r is Err ==> *final(self) == *old(self),
    {
        let s = self.escrow.unwrap();
        let mut vault = self.vault.unwrap();
        let mut taker_a = match self.taker_mint_a_ata {
            Some(a) => a,
            None => TokenAccount::empty(self.mint_a.address, self.taker),
        };
        let mut maker_b = match self.maker_mint_b_ata {
            Some(a) => a,
            None => TokenAccount::empty(self.mint_b.address, self.maker),
        };
        let mut taker_b = self.taker_mint_b_ata;
        let authority = match escrow_address(&self.program_id, &s.maker, s.seed, s.bump) {
            Some(a) => a,
            None => return Err(EscrowError::SeedsMismatch),
        };
        let amount = vault.amount;
        let c = check_transfer(
            &taker_b,
            &maker_b,
            &self.mint_b,
            &self.taker,
            s.receive_amount,
            self.mint_b.decimals,
        );
        if c.is_err() {
            return c;
        }
        let c = check_transfer(&vault, &taker_a, &self.mint_a, &authority, amount, self.mint_a.decimals);
        if c.is_err() {
            return c;
        }
        let t = transfer_checked(
            &mut taker_b,
            &mut maker_b,
            &self.mint_b,
            &self.taker,
            s.receive_amount,
            self.mint_b.decimals,
        );
        if t.is_err() {
            return t;
        }
        let u = transfer_checked(&mut vault, &mut taker_a, &self.mint_a, &authority, amount, self.mint_a.decimals);
        if u.is_err() {
            return u;
        }
        self.taker_mint_b_ata = taker_b;
        self.maker_mint_b_ata = Some(maker_b);
        self.taker_mint_a_ata = Some(taker_a);
        self.vault = Some(vault);
        Ok(())
    }

    /// Closes the vault and then the record, signed by the record's derived
    /// authority.
    pub fn close(&mut self) -> (r: Result<(), EscrowError>)
        requires
            old(self).accounts_error() is None,
        ensures
            r == outcome(close_error(old(self).vault, old(self).escrow_address)),
            r is Ok ==> *final(self) == (Take { vault: None, escrow: None, ..*old(self) }),
            r is Err ==> *final(self) == *old(self),
    {
        let s = self.escrow.unwrap();
        let authority = match escrow_address(&self.program_id, &s.maker, s.seed, s.bump) {
            Some(a) => a,
            None => return Err(EscrowError::SeedsMismatch),
        };
        let r = close_account(&mut self.vault, &authority);
        if r.is_ok() {
            self.escrow = None;
        }
        r
    }
}

} // verus!

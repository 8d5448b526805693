use vstd::prelude::*;

verus! {

/// Why an escrow operation was refused. Every refusal leaves all accounts as
/// they were.
#[derive(Clone, Copy, Debug, PartialEq, Eq, Structural)]
pub enum EscrowError {
    /// The escrow record does not exist: never created, or already closed.
    RecordAbsent,
    /// The vault of the record does not exist.
    VaultAbsent,
    /// An account that the operation would create already exists.
    AccountInUse,
    /// A supplied account does not match a field stored on the record.
    RecordMismatch,
    /// The record's address is not the one its seeds and bump derive.
    SeedsMismatch,
    /// The vault is not the record's associated token account for the first token.
    VaultMismatch,
    /// No bump derives an address for the record's seeds.
    NoViableBump,
    /// The caller is not the maker stored on the record.
    Unauthorized,
    /// A token account holds another mint than the one required.
    MintMismatch,
    /// A token account belongs to another owner than the one required.
    OwnerMismatch,
    /// The decimals given with a checked transfer are not the mint's.
    DecimalsMismatch,
    /// The source of a transfer holds less than the amount.
    InsufficientFunds,
    /// A balance would exceed the largest amount a token account can hold.
    Overflow,
    /// A token account that still holds tokens cannot be closed.
    NonZeroBalance,
}

/// The first of two possible errors.
pub open spec fn first(a: Option<EscrowError>, b: Option<EscrowError>) -> Option<EscrowError> {
    if a is Some {
        a
    } else {
        b
    }
}

/// `Ok` where there is no error, else the error.
pub open spec fn outcome(e: Option<EscrowError>) -> Result<(), EscrowError> {
    match e {
        Some(e) => Err(e),
        None => Ok(()),
    }
}

} // verus!

use vstd::prelude::*;

use crate::address::Address;

verus! {

/// One open offer: the maker has locked tokens of `mint_a` and asks for
/// `receive_amount` tokens of `mint_b` in return.
#[derive(Clone, Copy, Debug)]
pub struct EscrowState {
    /// Chosen by the maker; with the maker's address it fixes the record's address.
    pub seed: u64,
    pub maker: Address,
    pub mint_a: Address,
    pub mint_b: Address,
    pub receive_amount: u64,
    /// The bump that derives the record's address, kept to sign for it later.
    pub bump: u8,
}

} // verus!

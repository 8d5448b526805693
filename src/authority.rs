//! The escrow's derived authority: an address computed from the program's
//! identity, the maker and the seed, which no private key controls.
use vstd::prelude::*;

use crate::address::Address;
use anchor_lang::solana_program::pubkey::Pubkey;

verus! {

/// What `Pubkey::create_program_address` yields for these seeds under this
/// program: the derived address, or nothing where the hash lies on the curve
/// or the seeds are out of bounds.
pub uninterp spec fn program_address_of(seeds: Seq<Seq<u8>>, program: Seq<u8>) -> Option<Seq<u8>>;

/// The tag that opens every escrow seed list: the bytes of "escrow".
pub open spec fn escrow_tag() -> Seq<u8> {
    seq![101u8, 115u8, 99u8, 114u8, 111u8, 119u8]
}

/// The eight little-endian bytes of `x`.
pub open spec fn le_bytes(x: u64) -> Seq<u8> {
    seq![
        (x & 0xff) as u8,
        ((x >> 8u64) & 0xff) as u8,
        ((x >> 16u64) & 0xff) as u8,
        ((x >> 24u64) & 0xff) as u8,
        ((x >> 32u64) & 0xff) as u8,
        ((x >> 40u64) & 0xff) as u8,
        ((x >> 48u64) & 0xff) as u8,
        ((x >> 56u64) & 0xff) as u8,
    ]
}

/// The seeds of the escrow record of `maker` with `seed`, before the bump.
pub open spec fn escrow_seeds(maker: Seq<u8>, seed: u64) -> Seq<Seq<u8>> {
    seq![escrow_tag(), maker, le_bytes(seed)]
}

/// The full seed list that signs for the escrow record: the seeds and the bump.
pub open spec fn signer_seeds(maker: Seq<u8>, seed: u64, bump: u8) -> Seq<Seq<u8>> {
    escrow_seeds(maker, seed).push(seq![bump])
}

/// The address that `bump` derives for the escrow record of `maker` with `seed`.
pub open spec fn escrow_address_of(program: Seq<u8>, maker: Seq<u8>, seed: u64, bump: u8) -> Option<Seq<u8>> {
    program_address_of(signer_seeds(maker, seed, bump), program)
}

/// Relies on `Pubkey::create_program_address` of solana-program: the derived
/// address of the seeds under the program, or an error where there is none.
#[verifier::external_body]
fn create_program_address(seeds: &Vec<Vec<u8>>, program: &Address) -> (r: Option<Address>)
    ensures
        r is Some <==> program_address_of(seeds.deep_view(), program@) is Some,
        r is Some ==> r.unwrap()@ == program_address_of(seeds.deep_view(), program@).unwrap(),
{
    let refs: Vec<&[u8]> = seeds.iter().map(|s| s.as_slice()).collect();
    let program = Pubkey::new_from_array(program.bytes);
    Pubkey::create_program_address(&refs, &program).ok().map(|k| Address { bytes: k.to_bytes() })
}

/// Relies on `Pubkey::try_find_program_address` of solana-program: it tries
/// the bumps from 255 down to 1, appending each as one more seed, and returns
/// the first that derives an address, or nothing where none does.
#[verifier::external_body]
fn try_find_program_address(seeds: &Vec<Vec<u8>>, program: &Address) -> (r: Option<(Address, u8)>)
    ensures
        r is Some ==> {
            let (a, b) = r.unwrap();
            &&& 1 <= b
            &&& program_address_of(seeds.deep_view().push(seq![b]), program@) == Some(a@)
            &&& forall|c: u8| b < c ==> program_address_of(seeds.deep_view().push(seq![c]), program@) is None
        },
        r is None ==> forall|c: u8| 1 <= c ==> program_address_of(seeds.deep_view().push(seq![c]), program@) is None,
{
    let refs: Vec<&[u8]> = seeds.iter().map(|s| s.as_slice()).collect();
    let program = Pubkey::new_from_array(program.bytes);
    Pubkey::try_find_program_address(&refs, &program).map(|(k, b)| (Address { bytes: k.to_bytes() }, b))
}

/// A vector of bytes looks the same through `deep_view` as through `view`.
proof fn lemma_bytes_deep_view(v: &Vec<u8>)
    ensures
        v.deep_view() == v@,
{
    assert(v.deep_view() =~= v@);
}

/// The eight little-endian bytes of `x`, as a vector.
pub fn le_bytes_of(x: u64) -> (r: Vec<u8>)
    ensures
        r@ == le_bytes(x),
{
    let r: Vec<u8> = vec![
        (x & 0xff) as u8,
        ((x >> 8u64) & 0xff) as u8,
        ((x >> 16u64) & 0xff) as u8,
        ((x >> 24u64) & 0xff) as u8,
        ((x >> 32u64) & 0xff) as u8,
        ((x >> 40u64) & 0xff) as u8,
        ((x >> 48u64) & 0xff) as u8,
        ((x >> 56u64) & 0xff) as u8,
    ];
    assert(r@ =~= le_bytes(x));
    r
}

/// The seed list of the escrow record of `maker` with `seed`, before the bump.
pub fn escrow_seeds_of(maker: &Address, seed: u64) -> (r: Vec<Vec<u8>>)
    ensures
        r.deep_view() == escrow_seeds(maker@, seed),
{
    let tag: Vec<u8> = vec![101u8, 115u8, 99u8, 114u8, 111u8, 119u8];
    assert(tag@ =~= escrow_tag());
    let key = maker.to_vec();
    let le = le_bytes_of(seed);
    proof {
        lemma_bytes_deep_view(&tag);
        lemma_bytes_deep_view(&key);
        lemma_bytes_deep_view(&le);
    }
    let r: Vec<Vec<u8>> = vec![tag, key, le];
    assert(r.deep_view() =~= escrow_seeds(maker@, seed));
    r
}

/// Reconstructs the escrow record's authority from its maker, seed and stored
/// bump: the address that signs for the record and its vault.
pub fn escrow_address(program: &Address, maker: &Address, seed: u64, bump: u8) -> (r: Option<Address>)
    ensures
        r is Some <==> escrow_address_of(program@, maker@, seed, bump) is Some,
        r is Some ==> r.unwrap()@ == escrow_address_of(program@, maker@, seed, bump).unwrap(),
{
    let mut seeds = escrow_seeds_of(maker, seed);
    let last: Vec<u8> = vec![bump];
    proof {
        lemma_bytes_deep_view(&last);
        assert(last@ =~= seq![bump]);
    }
    seeds.push(last);
    assert(seeds.deep_view() =~= signer_seeds(maker@, seed, bump));
    create_program_address(&seeds, program)
}

/// Whether `b` is the bump that the search settles on for `seeds` under
/// `program`: it derives an address, and no larger bump does.
pub open spec fn is_found_bump(seeds: Seq<Seq<u8>>, program: Seq<u8>, b: u8) -> bool {
    &&& 1 <= b
    &&& program_address_of(seeds.push(seq![b]), program) is Some
    &&& forall|c: u8| b < c ==> program_address_of(seeds.push(seq![c]), program) is None
}

/// The bump that the search settles on for `seeds` under `program`, where
/// one derives an address.
pub open spec fn found_bump(seeds: Seq<Seq<u8>>, program: Seq<u8>) -> Option<u8> {
    if exists|b: u8| is_found_bump(seeds, program, b) {
        Some(choose|b: u8| is_found_bump(seeds, program, b))
    } else {
        None
    }
}

/// The address that the bump search derives for `seeds` under `program`.
pub open spec fn found_address(seeds: Seq<Seq<u8>>, program: Seq<u8>) -> Option<Seq<u8>> {
    match found_bump(seeds, program) {
        Some(b) => program_address_of(seeds.push(seq![b]), program),
        None => None,
    }
}

/// At most one bump is the one the search settles on.
pub proof fn lemma_found_bump_unique(seeds: Seq<Seq<u8>>, program: Seq<u8>, b1: u8, b2: u8)
    requires
        is_found_bump(seeds, program, b1),
        is_found_bump(seeds, program, b2),
    ensures
        b1 == b2,
{
}

/// Searches the bump for `seeds` under `program`, and the address it derives.
pub fn find_derived_address(seeds: &Vec<Vec<u8>>, program: &Address) -> (r: Option<(Address, u8)>)
    ensures
        r matches Some((a, b)) ==> found_bump(seeds.deep_view(), program@) == Some(b)
            && found_address(seeds.deep_view(), program@) == Some(a@),
        r is None ==> found_bump(seeds.deep_view(), program@) is None,
{
    let r = try_find_program_address(seeds, program);
    proof {
        let sv = seeds.deep_view();
        match r {
            Some((a, b)) => {
                assert(is_found_bump(sv, program@, b));
                let c = choose|c: u8| is_found_bump(sv, program@, c);
                lemma_found_bump_unique(sv, program@, b, c);
            },
            None => {
                assert(!exists|b: u8| is_found_bump(sv, program@, b));
            },
        }
    }
    r
}

/// The bump of the escrow record of `maker` with `seed`, where one derives an address.
pub open spec fn escrow_bump(program: Seq<u8>, maker: Seq<u8>, seed: u64) -> Option<u8> {
    found_bump(escrow_seeds(maker, seed), program)
}

/// Finds the bump of the escrow record of `maker` with `seed`: the largest
/// that derives an address, with that address.
pub fn find_escrow_address(program: &Address, maker: &Address, seed: u64) -> (r: Option<(Address, u8)>)
    ensures
        r matches Some((a, b)) ==> escrow_bump(program@, maker@, seed) == Some(b)
            && escrow_address_of(program@, maker@, seed, b) == Some(a@),
        r is None ==> escrow_bump(program@, maker@, seed) is None,
{
    let seeds = escrow_seeds_of(maker, seed);
    find_derived_address(&seeds, program)
}

/// The seeds of the associated token account of `wallet` for `mint`, kept
/// by `token_program`.
pub open spec fn associated_seeds(wallet: Seq<u8>, token_program: Seq<u8>, mint: Seq<u8>) -> Seq<Seq<u8>> {
    seq![wallet, token_program, mint]
}

/// The address of the associated token account of `wallet` for `mint`:
/// what the bump search derives for its seeds under the associated token
/// program.
pub open spec fn associated_address_of(
    wallet: Seq<u8>,
    mint: Seq<u8>,
    token_program: Seq<u8>,
    associated_program: Seq<u8>,
) -> Option<Seq<u8>> {
    found_address(associated_seeds(wallet, token_program, mint), associated_program)
}

/// Derives the address of the associated token account of `wallet` for `mint`.
pub fn associated_token_address(
    wallet: &Address,
    mint: &Address,
    token_program: &Address,
    associated_program: &Address,
) -> (r: Option<Address>)
    ensures
        r is Some <==> associated_address_of(wallet@, mint@, token_program@, associated_program@) is Some,
        r is Some ==> r.unwrap()@ == associated_address_of(wallet@, mint@, token_program@, associated_program@).unwrap(),
{
    let w = wallet.to_vec();
    let t = token_program.to_vec();
    let m = mint.to_vec();
    proof {
        lemma_bytes_deep_view(&w);
        lemma_bytes_deep_view(&t);
        lemma_bytes_deep_view(&m);
    }
    let seeds: Vec<Vec<u8>> = vec![w, t, m];
    assert(seeds.deep_view() =~= associated_seeds(wallet@, token_program@, mint@));
    match find_derived_address(&seeds, associated_program) {
        Some((a, _)) => Some(a),
        None => None,
    }
}

} // verus!

use anchor_lang::solana_program::pubkey::Pubkey;
use escrow::address::Address;
use anchor_spl::associated_token::get_associated_token_address;
use escrow::authority::{associated_token_address, escrow_address, find_escrow_address, le_bytes_of};
use escrow::error::EscrowError;
use escrow::make::Make;
use escrow::refund::Refund;
use escrow::take::Take;
use escrow::token::{close_account, transfer_checked, Mint, TokenAccount};
use escrow::{make, refund, take};

fn addr(n: u8) -> Address {
    Address::new([n; 32])
}

fn program() -> Address {
    addr(200)
}

fn maker() -> Address {
    addr(1)
}

fn taker() -> Address {
    addr(2)
}

fn mint_a() -> Mint {
    Mint { address: addr(10), decimals: 6 }
}

fn mint_b() -> Mint {
    Mint { address: addr(11), decimals: 9 }
}

fn derived(maker: &Address, seed: u64) -> (Address, u8) {
    let (k, b) = Pubkey::find_program_address(
        &[b"escrow", &maker.bytes, &seed.to_le_bytes()],
        &Pubkey::new_from_array(program().bytes),
    );
    (Address::new(k.to_bytes()), b)
}

fn key(a: &Address) -> Pubkey {
    Pubkey::new_from_array(a.bytes)
}

fn token_program() -> Address {
    Address::new(anchor_spl::token::ID.to_bytes())
}

fn associated_program() -> Address {
    Address::new(anchor_spl::associated_token::ID.to_bytes())
}

fn vault_of(m: &Make) -> Address {
    Address::new(get_associated_token_address(&key(&m.escrow_address), &key(&m.mint_a.address)).to_bytes())
}

fn make_ctx(seed: u64, maker_a: u64) -> Make {
    let (escrow_address, _) = derived(&maker(), seed);
    Make {
        program_id: program(),
        maker: maker(),
        mint_a: mint_a(),
        mint_b: mint_b(),
        maker_mint_a_ata: TokenAccount { mint: mint_a().address, owner: maker(), amount: maker_a },
        escrow_address,
        escrow: None,
        vault: None,
    }
}

fn take_ctx(m: &Make, taker_b: u64) -> Take {
    Take {
        program_id: m.program_id,
        taker: taker(),
        maker: m.maker,
        mint_a: m.mint_a,
        mint_b: m.mint_b,
        taker_mint_a_ata: None,
        taker_mint_b_ata: TokenAccount { mint: mint_b().address, owner: taker(), amount: taker_b },
        maker_mint_b_ata: None,
        escrow_address: m.escrow_address,
        escrow: m.escrow,
        vault_address: vault_of(m),
        vault: m.vault,
        token_program: token_program(),
        associated_token_program: associated_program(),
    }
}

fn refund_ctx(m: &Make, signer: Address) -> Refund {
    Refund {
        program_id: m.program_id,
        maker: signer,
        mint_a: m.mint_a,
        maker_mint_a_ata: m.maker_mint_a_ata,
        escrow_address: m.escrow_address,
        escrow: m.escrow,
        vault_address: vault_of(m),
        vault: m.vault,
        token_program: token_program(),
        associated_token_program: associated_program(),
    }
}

#[test]
fn create_then_fulfil_swaps_both_tokens() {
    let mut m = make_ctx(1, 1000);
    assert_eq!(make(&mut m, 1, 500, 1000), Ok(()));
    assert_eq!(m.vault.unwrap().amount, 1000);
    assert_eq!(m.maker_mint_a_ata.amount, 0);
    let mut t = take_ctx(&m, 800);
    assert_eq!(take(&mut t), Ok(()));
    assert_eq!(t.maker_mint_b_ata.unwrap().amount, 500);
    assert!(t.maker_mint_b_ata.unwrap().owner.same(&maker()));
    assert_eq!(t.taker_mint_a_ata.unwrap().amount, 1000);
    assert!(t.taker_mint_a_ata.unwrap().owner.same(&taker()));
    assert_eq!(t.taker_mint_b_ata.amount, 300);
    assert!(t.vault.is_none());
    assert!(t.escrow.is_none());
}

#[test]
fn create_then_cancel_returns_deposit() {
    let mut m = make_ctx(2, 300);
    assert_eq!(make(&mut m, 2, 700, 300), Ok(()));
    assert_eq!(m.maker_mint_a_ata.amount, 0);
    let mut r = refund_ctx(&m, maker());
    assert_eq!(refund(&mut r), Ok(()));
    assert_eq!(r.maker_mint_a_ata.amount, 300);
    assert!(r.vault.is_none());
    assert!(r.escrow.is_none());
}

#[test]
fn create_writes_the_supplied_fields() {
    let mut m = make_ctx(7, 50);
    assert_eq!(make(&mut m, 7, 42, 20), Ok(()));
    let s = m.escrow.unwrap();
    let (expected, bump) = derived(&maker(), 7);
    assert_eq!(s.seed, 7);
    assert_eq!(s.receive_amount, 42);
    assert_eq!(s.bump, bump);
    assert!(s.maker.same(&maker()));
    assert!(s.mint_a.same(&mint_a().address));
    assert!(s.mint_b.same(&mint_b().address));
    let v = m.vault.unwrap();
    assert_eq!(v.amount, 20);
    assert!(v.owner.same(&expected));
    assert!(v.mint.same(&mint_a().address));
    assert_eq!(m.maker_mint_a_ata.amount, 30);
}

#[test]
fn create_twice_is_refused() {
    let mut m = make_ctx(3, 100);
    assert_eq!(make(&mut m, 3, 1, 40), Ok(()));
    let before = m;
    assert_eq!(make(&mut m, 3, 1, 40), Err(EscrowError::AccountInUse));
    assert_eq!(m.maker_mint_a_ata.amount, before.maker_mint_a_ata.amount);
    assert_eq!(m.vault.unwrap().amount, 40);
}

#[test]
fn create_with_too_little_is_refused() {
    let mut m = make_ctx(4, 99);
    assert_eq!(make(&mut m, 4, 1, 100), Err(EscrowError::InsufficientFunds));
    assert!(m.escrow.is_none());
    assert!(m.vault.is_none());
    assert_eq!(m.maker_mint_a_ata.amount, 99);
}

#[test]
fn create_at_another_address_is_refused() {
    let mut m = make_ctx(5, 100);
    m.escrow_address = addr(77);
    assert_eq!(make(&mut m, 5, 1, 10), Err(EscrowError::SeedsMismatch));
    assert!(m.escrow.is_none());
}

#[test]
fn create_from_wrong_token_account_is_refused() {
    let mut m = make_ctx(6, 100);
    m.maker_mint_a_ata.mint = mint_b().address;
    assert_eq!(make(&mut m, 6, 1, 10), Err(EscrowError::MintMismatch));
    let mut m = make_ctx(6, 100);
    m.maker_mint_a_ata.owner = taker();
    assert_eq!(make(&mut m, 6, 1, 10), Err(EscrowError::OwnerMismatch));
}

#[test]
fn second_settlement_finds_no_record() {
    let mut m = make_ctx(8, 10);
    assert_eq!(make(&mut m, 8, 5, 10), Ok(()));
    let mut t = take_ctx(&m, 5);
    assert_eq!(take(&mut t), Ok(()));
    let after = t;
    assert_eq!(take(&mut t), Err(EscrowError::RecordAbsent));
    assert_eq!(t.taker_mint_a_ata.unwrap().amount, after.taker_mint_a_ata.unwrap().amount);
    assert_eq!(t.taker_mint_b_ata.amount, 0);
    let mut r = refund_ctx(&m, maker());
    r.escrow = t.escrow;
    r.vault = t.vault;
    assert_eq!(refund(&mut r), Err(EscrowError::RecordAbsent));
    assert_eq!(r.maker_mint_a_ata.amount, 0);
}

#[test]
fn second_cancel_finds_no_record() {
    let mut m = make_ctx(9, 10);
    assert_eq!(make(&mut m, 9, 5, 10), Ok(()));
    let mut r = refund_ctx(&m, maker());
    assert_eq!(refund(&mut r), Ok(()));
    assert_eq!(refund(&mut r), Err(EscrowError::RecordAbsent));
    assert_eq!(r.maker_mint_a_ata.amount, 10);
    let mut t = take_ctx(&m, 5);
    t.escrow = r.escrow;
    t.vault = r.vault;
    assert_eq!(take(&mut t), Err(EscrowError::RecordAbsent));
    assert_eq!(t.taker_mint_b_ata.amount, 5);
}

#[test]
fn cancel_by_another_identity_is_refused() {
    let mut m = make_ctx(10, 10);
    assert_eq!(make(&mut m, 10, 5, 10), Ok(()));
    let mut r = refund_ctx(&m, taker());
    r.maker_mint_a_ata = TokenAccount { mint: mint_a().address, owner: taker(), amount: 0 };
    assert_eq!(refund(&mut r), Err(EscrowError::Unauthorized));
    assert_eq!(r.vault.unwrap().amount, 10);
    assert_eq!(r.maker_mint_a_ata.amount, 0);
    assert!(r.escrow.is_some());
}

#[test]
fn fulfil_with_wrong_mint_is_refused() {
    let mut m = make_ctx(11, 10);
    assert_eq!(make(&mut m, 11, 5, 10), Ok(()));
    let mut t = take_ctx(&m, 5);
    t.taker_mint_b_ata.mint = addr(99);
    assert_eq!(take(&mut t), Err(EscrowError::MintMismatch));
    assert_eq!(t.taker_mint_b_ata.amount, 5);
    assert_eq!(t.vault.unwrap().amount, 10);
    let mut t = take_ctx(&m, 5);
    t.taker_mint_a_ata = Some(TokenAccount { mint: addr(98), owner: taker(), amount: 0 });
    assert_eq!(take(&mut t), Err(EscrowError::MintMismatch));
    assert_eq!(t.vault.unwrap().amount, 10);
    let mut t = take_ctx(&m, 5);
    t.mint_b = Mint { address: addr(97), decimals: 9 };
    t.taker_mint_b_ata.mint = addr(97);
    assert_eq!(take(&mut t), Err(EscrowError::RecordMismatch));
    assert_eq!(t.taker_mint_b_ata.amount, 5);
}

#[test]
fn fulfil_with_another_maker_is_refused() {
    let mut m = make_ctx(12, 10);
    assert_eq!(make(&mut m, 12, 5, 10), Ok(()));
    let mut t = take_ctx(&m, 5);
    t.maker = addr(55);
    assert_eq!(take(&mut t), Err(EscrowError::RecordMismatch));
}

#[test]
fn fulfil_with_too_little_moves_nothing() {
    let mut m = make_ctx(13, 10);
    assert_eq!(make(&mut m, 13, 5, 10), Ok(()));
    let mut t = take_ctx(&m, 4);
    assert_eq!(take(&mut t), Err(EscrowError::InsufficientFunds));
    assert_eq!(t.taker_mint_b_ata.amount, 4);
    assert!(t.taker_mint_a_ata.is_none());
    assert!(t.maker_mint_b_ata.is_none());
    assert_eq!(t.vault.unwrap().amount, 10);
}

#[test]
fn fulfil_into_a_full_account_moves_nothing() {
    let mut m = make_ctx(14, 10);
    assert_eq!(make(&mut m, 14, 5, 10), Ok(()));
    let mut t = take_ctx(&m, 5);
    t.taker_mint_a_ata = Some(TokenAccount { mint: mint_a().address, owner: taker(), amount: u64::MAX - 9 });
    assert_eq!(take(&mut t), Err(EscrowError::Overflow));
    assert_eq!(t.taker_mint_b_ata.amount, 5);
    assert!(t.maker_mint_b_ata.is_none());
}

#[test]
fn fulfil_pays_into_existing_accounts() {
    let mut m = make_ctx(15, 10);
    assert_eq!(make(&mut m, 15, 5, 10), Ok(()));
    let mut t = take_ctx(&m, 8);
    t.taker_mint_a_ata = Some(TokenAccount { mint: mint_a().address, owner: taker(), amount: 3 });
    t.maker_mint_b_ata = Some(TokenAccount { mint: mint_b().address, owner: maker(), amount: 4 });
    assert_eq!(take(&mut t), Ok(()));
    assert_eq!(t.taker_mint_a_ata.unwrap().amount, 13);
    assert_eq!(t.maker_mint_b_ata.unwrap().amount, 9);
    assert_eq!(t.taker_mint_b_ata.amount, 3);
}

#[test]
fn fulfil_without_vault_is_refused() {
    let mut m = make_ctx(16, 10);
    assert_eq!(make(&mut m, 16, 5, 10), Ok(()));
    let mut t = take_ctx(&m, 5);
    t.vault = None;
    assert_eq!(take(&mut t), Err(EscrowError::VaultAbsent));
}

#[test]
fn fulfil_with_wrong_bump_is_refused() {
    let mut m = make_ctx(17, 10);
    assert_eq!(make(&mut m, 17, 5, 10), Ok(()));
    let mut t = take_ctx(&m, 5);
    let mut s = t.escrow.unwrap();
    s.seed = 18;
    t.escrow = Some(s);
    assert_eq!(take(&mut t), Err(EscrowError::SeedsMismatch));
}

#[test]
fn transfer_checks_decimals_and_owner() {
    let mut from = TokenAccount { mint: mint_a().address, owner: maker(), amount: 10 };
    let mut to = TokenAccount { mint: mint_a().address, owner: taker(), amount: 0 };
    assert_eq!(transfer_checked(&mut from, &mut to, &mint_a(), &maker(), 4, 9), Err(EscrowError::DecimalsMismatch));
    assert_eq!(transfer_checked(&mut from, &mut to, &mint_a(), &taker(), 4, 6), Err(EscrowError::OwnerMismatch));
    assert_eq!(from.amount, 10);
    assert_eq!(transfer_checked(&mut from, &mut to, &mint_a(), &maker(), 4, 6), Ok(()));
    assert_eq!(from.amount, 6);
    assert_eq!(to.amount, 4);
}

#[test]
fn closing_a_funded_account_is_refused() {
    let mut acct = Some(TokenAccount { mint: mint_a().address, owner: maker(), amount: 1 });
    assert_eq!(close_account(&mut acct, &maker()), Err(EscrowError::NonZeroBalance));
    assert!(acct.is_some());
    let mut acct = Some(TokenAccount { mint: mint_a().address, owner: maker(), amount: 0 });
    assert_eq!(close_account(&mut acct, &taker()), Err(EscrowError::OwnerMismatch));
    assert_eq!(close_account(&mut acct, &maker()), Ok(()));
    assert!(acct.is_none());
    assert_eq!(close_account(&mut acct, &maker()), Err(EscrowError::VaultAbsent));
}

#[test]
fn derived_authority_matches_the_runtime() {
    let (expected, bump) = derived(&maker(), 1);
    let (found, found_bump) = find_escrow_address(&program(), &maker(), 1).unwrap();
    assert!(found.same(&expected));
    assert!(!found.same(&program()));
    assert_eq!(found_bump, bump);
    let rebuilt = escrow_address(&program(), &maker(), 1, bump).unwrap();
    assert!(rebuilt.same(&expected));
    let other = derived(&maker(), 2).0;
    assert!(!other.same(&expected));
}

#[test]
fn seed_bytes_are_little_endian() {
    assert_eq!(le_bytes_of(0x0102030405060708), vec![8, 7, 6, 5, 4, 3, 2, 1]);
    assert_eq!(le_bytes_of(1), vec![1, 0, 0, 0, 0, 0, 0, 0]);
}

#[test]
fn fulfil_with_another_vault_is_refused() {
    let mut m = make_ctx(18, 10);
    assert_eq!(make(&mut m, 18, 5, 10), Ok(()));
    let mut t = take_ctx(&m, 5);
    t.vault_address = addr(66);
    assert_eq!(take(&mut t), Err(EscrowError::VaultMismatch));
    assert_eq!(t.taker_mint_b_ata.amount, 5);
    assert_eq!(t.vault.unwrap().amount, 10);
    assert!(t.escrow.is_some());
}

#[test]
fn cancel_with_another_vault_is_refused() {
    let mut m = make_ctx(19, 10);
    assert_eq!(make(&mut m, 19, 5, 10), Ok(()));
    let mut r = refund_ctx(&m, maker());
    r.vault_address = m.escrow_address;
    assert_eq!(refund(&mut r), Err(EscrowError::VaultMismatch));
    assert_eq!(r.vault.unwrap().amount, 10);
    assert_eq!(r.maker_mint_a_ata.amount, 0);
    assert!(r.escrow.is_some());
}

#[test]
fn fulfil_reports_the_payment_error_first() {
    let mut m = make_ctx(20, 10);
    assert_eq!(make(&mut m, 20, 5, 10), Ok(()));
    let mut t = take_ctx(&m, 4);
    t.taker_mint_a_ata = Some(TokenAccount { mint: mint_a().address, owner: taker(), amount: u64::MAX - 9 });
    assert_eq!(take(&mut t), Err(EscrowError::InsufficientFunds));
    assert_eq!(t.taker_mint_b_ata.amount, 4);
    assert_eq!(t.vault.unwrap().amount, 10);
}

#[test]
fn associated_address_matches_the_runtime() {
    let wallet = addr(33);
    let expected = get_associated_token_address(&key(&wallet), &key(&mint_a().address));
    let found = associated_token_address(&wallet, &mint_a().address, &token_program(), &associated_program()).unwrap();
    assert_eq!(found.bytes, expected.to_bytes());
    assert!(!found.same(&wallet));
}

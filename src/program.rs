//! The three instructions of the escrow program. Each either goes through
//! whole or leaves every account as it was.
use vstd::prelude::*;

use crate::authority::{escrow_address_of, escrow_bump};
use crate::error::{outcome, EscrowError};
use crate::make::{check_deposit, Make};
use crate::refund::Refund;
use crate::take::Take;

verus! {

/// Opens an offer: writes the record of the maker with `seed`, asking for
/// `receive_amount` of the second token, and moves `deposit_amount` of the
/// first token from the maker into the record's new vault.
pub fn make(ctx: &mut Make, seed: u64, receive_amount: u64, deposit_amount: u64) -> (r: Result<(), EscrowError>)
    ensures
        r == outcome(old(ctx).make_error(seed, deposit_amount)),
        r is Ok ==> *final(ctx) == old(ctx).made(seed, receive_amount, deposit_amount),
        r is Err ==> *final(ctx) == *old(ctx),
        r is Ok ==> {
            let o = *old(ctx);
            let f = *final(ctx);
            let s = f.escrow.unwrap();
            let v = f.vault.unwrap();
            &&& f.escrow is Some
            &&& s.seed == seed
            &&& s.maker == o.maker
            &&& s.mint_a == o.mint_a.address
            &&& s.mint_b == o.mint_b.address
            &&& s.receive_amount == receive_amount
            &&& escrow_address_of(o.program_id@, o.maker@, seed, s.bump) == Some(o.escrow_address@)
            &&& f.vault is Some
            &&& v.amount == deposit_amount
            &&& v.mint == o.mint_a.address
            &&& v.owner == o.escrow_address
            &&& f.maker_mint_a_ata.amount == o.maker_mint_a_ata.amount - deposit_amount
        },
{
    let b = match ctx.validate(seed) {
        Ok(b) => b,
        Err(e) => return Err(e),
    };
    let c = check_deposit(ctx, deposit_amount);
    if c.is_err() {
        return c;
    }
    ctx.init_escrow_state(seed, receive_amount, b);
    ctx.deposit(deposit_amount)
}

/// Cancels an offer: the vault pays the maker back all it holds, then the
/// vault and the record close. Only the maker stored on the record may.
pub fn refund(ctx: &mut Refund) -> (r: Result<(), EscrowError>)
    ensures
        r == outcome(old(ctx).refund_error()),
        r is Ok ==> *final(ctx) == old(ctx).refunded(),
        r is Err ==> *final(ctx) == *old(ctx),
        r is Ok ==> {
            let o = *old(ctx);
            let f = *final(ctx);
            &&& f.maker_mint_a_ata.amount == o.maker_mint_a_ata.amount + o.vault.unwrap().amount
            &&& f.vault is None
            &&& f.escrow is None
        },
        old(ctx).escrow matches Some(s) && s.maker@ != old(ctx).maker@ ==> r == Err::<(), EscrowError>(
            EscrowError::Unauthorized,
        ),
{
    let v = ctx.validate();
    if v.is_err() {
        return v;
    }
    let w = ctx.withdraw();
    if w.is_err() {
        return w;
    }
    ctx.close()
}

/// Fulfills an offer: the taker pays the maker the amount asked for, the
/// vault pays the taker all it holds, then the vault and the record close.
/// The taker's and the maker's accounts that receive are opened if absent.
pub fn take(ctx: &mut Take) -> (r: Result<(), EscrowError>)
    ensures
        r == outcome(old(ctx).take_error()),
        r is Ok ==> *final(ctx) == old(ctx).taken(),
        r is Err ==> *final(ctx) == *old(ctx),
        r is Ok ==> {
            let o = *old(ctx);
            let f = *final(ctx);
            let s = o.escrow.unwrap();
            &&& f.maker_mint_b_ata is Some
            &&& f.maker_mint_b_ata.unwrap().amount == o.maker_b().amount + s.receive_amount
            &&& f.taker_mint_b_ata.amount == o.taker_mint_b_ata.amount - s.receive_amount
            &&& f.taker_mint_a_ata is Some
            &&& f.taker_mint_a_ata.unwrap().amount == o.taker_a().amount + o.vault.unwrap().amount
            &&& f.vault is None
            &&& f.escrow is None
        },
        old(ctx).escrow matches Some(s) && {
            ||| old(ctx).taker_mint_b_ata.mint@ != s.mint_b@
            ||| old(ctx).maker_mint_b_ata matches Some(a) && a.mint@ != s.mint_b@
            ||| old(ctx).taker_mint_a_ata matches Some(a) && a.mint@ != s.mint_a@
            ||| old(ctx).vault matches Some(a) && a.mint@ != s.mint_a@
        } ==> r is Err,
{
    let v = ctx.validate();
    if v.is_err() {
        return v;
    }
    let w = ctx.withdraw();
    if w.is_err() {
        return w;
    }
    ctx.close()
}

/// Once an offer has been fulfilled, neither fulfilling nor cancelling it
/// again can go through: the record is absent, so nothing moves.
pub proof fn lemma_taken_record_is_absent(done: Take, again: Take, cancel: Refund)
    requires
        done.take_error() is None,
        again.escrow == done.taken().escrow,
        cancel.escrow == done.taken().escrow,
    ensures
        again.take_error() == Some(EscrowError::RecordAbsent),
        cancel.refund_error() == Some(EscrowError::RecordAbsent),
{
}

/// Once an offer has been cancelled, neither fulfilling nor cancelling it
/// again can go through: the record is absent, so nothing moves.
pub proof fn lemma_refunded_record_is_absent(done: Refund, again: Refund, fulfil: Take)
    requires
        done.refund_error() is None,
        again.escrow == done.refunded().escrow,
        fulfil.escrow == done.refunded().escrow,
    ensures
        again.refund_error() == Some(EscrowError::RecordAbsent),
        fulfil.take_error() == Some(EscrowError::RecordAbsent),
{
}

/// A valid create goes through: where neither the record nor the vault
/// exists, the record's address is the one its seeds derive, and the maker's
/// own account for the first token holds the deposit, exactly one record
/// holding the supplied fields and the maker appears, and the vault holds
/// the deposit.
pub proof fn lemma_valid_create_opens_record(
    ctx: Make,
    seed: u64,
    receive_amount: u64,
    deposit_amount: u64,
    bump: u8,
)
    requires
        ctx.escrow is None,
        ctx.vault is None,
        escrow_bump(ctx.program_id@, ctx.maker@, seed) == Some(bump),
        escrow_address_of(ctx.program_id@, ctx.maker@, seed, bump) == Some(ctx.escrow_address@),
        ctx.maker_mint_a_ata.mint@ == ctx.mint_a.address@,
        ctx.maker_mint_a_ata.owner@ == ctx.maker@,
        ctx.maker_mint_a_ata.amount >= deposit_amount,
    ensures
        ctx.make_error(seed, deposit_amount) is None,
        ctx.made(seed, receive_amount, deposit_amount).escrow == Some(
            ctx.new_state(seed, receive_amount, bump),
        ),
        ctx.made(seed, receive_amount, deposit_amount).vault.unwrap().amount == deposit_amount,
        ctx.made(seed, receive_amount, deposit_amount).vault.unwrap().mint == ctx.mint_a.address,
        ctx.made(seed, receive_amount, deposit_amount).vault.unwrap().owner == ctx.escrow_address,
{
}

/// Fulfilling an active offer goes through when the taker holds the amount
/// asked for and no receiving balance would pass the largest amount: the
/// maker gains that amount, the taker loses it and gains all the vault held,
/// and the vault and the record are gone.
pub proof fn lemma_active_fulfil_settles(ctx: Take)
    requires
        ctx.accounts_error() is None,
        ctx.taker_mint_b_ata.amount >= ctx.escrow.unwrap().receive_amount,
        ctx.maker_b().amount + ctx.escrow.unwrap().receive_amount <= u64::MAX,
        ctx.taker_a().amount + ctx.vault.unwrap().amount <= u64::MAX,
    ensures
        ctx.take_error() is None,
        ctx.taken().maker_mint_b_ata.unwrap().amount == ctx.maker_b().amount + ctx.escrow.unwrap().receive_amount,
        ctx.taken().taker_mint_b_ata.amount == ctx.taker_mint_b_ata.amount - ctx.escrow.unwrap().receive_amount,
        ctx.taken().taker_mint_a_ata.unwrap().amount == ctx.taker_a().amount + ctx.vault.unwrap().amount,
        ctx.taken().vault is None,
        ctx.taken().escrow is None,
{
}

/// Cancelling an active offer by its maker goes through when the maker's
/// balance can take the vault's: the maker gains all the vault held, and the
/// vault and the record are gone.
pub proof fn lemma_active_cancel_settles(ctx: Refund)
    requires
        ctx.accounts_error() is None,
        ctx.maker_mint_a_ata.amount + ctx.vault.unwrap().amount <= u64::MAX,
    ensures
        ctx.refund_error() is None,
        ctx.refunded().maker_mint_a_ata.amount == ctx.maker_mint_a_ata.amount + ctx.vault.unwrap().amount,
        ctx.refunded().vault is None,
        ctx.refunded().escrow is None,
{
}

} // verus!

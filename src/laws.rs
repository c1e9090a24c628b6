//! Properties that relate the operations to one another.
use vstd::prelude::*;

use crate::authority::derived_authority;
use crate::ledger::transfer_error;
use crate::make::{made, make_error, Make};
use crate::refund::{after_refund, refund_binds, refund_error, refunded, Refund};
use crate::state::EscrowError;
use crate::take::{after_take, settled, take_binds, take_error, Take};

verus! {

/// A live record's vault holds exactly what was deposited at creation: a
/// creation that went through leaves the record beside a vault of `deposit`
/// tokens of `mint_a` owned by the record's address, and any settlement or
/// cancellation attempt on the record either leaves record and vault exactly
/// as they were or closes both together.
pub proof fn lemma_vault_holds_deposit(m: Make, seed: u64, deposit: u64, receive: u64, t: Take, r: Refund)
    requires
        make_error(m, seed, deposit, receive) is None,
        t.escrow == made(m, seed, deposit, receive).escrow,
        t.vault == made(m, seed, deposit, receive).vault,
        r.escrow == made(m, seed, deposit, receive).escrow,
        r.vault == made(m, seed, deposit, receive).vault,
    ensures
        made(m, seed, deposit, receive).escrow is Some,
        made(m, seed, deposit, receive).vault matches Some(v) && v.amount == deposit && v.mint == m.mint_a
            && v.owner == m.escrow_key,
        (after_take(t).escrow == t.escrow && after_take(t).vault == t.vault)
            || (after_take(t).escrow is None && after_take(t).vault is None),
        (after_refund(r).escrow == r.escrow && after_refund(r).vault == r.vault)
            || (after_refund(r).escrow is None && after_refund(r).vault is None),
{
}

/// Settlement happens at most once: once a settlement or a cancellation has
/// gone through, any settlement or cancellation of that record fails with
/// `NotFound`, whoever attempts it.
pub proof fn lemma_settles_at_most_once(t: Take, r: Refund)
    requires
        take_error(t) is None || refund_error(r) is None,
    ensures
        take_error(t) is None ==> forall|t2: Take| t2.escrow == settled(t).escrow ==> take_error(t2) == Some(EscrowError::NotFound),
        take_error(t) is None ==> forall|r2: Refund| r2.escrow == settled(t).escrow ==> refund_error(r2) == Some(EscrowError::NotFound),
        refund_error(r) is None ==> forall|t2: Take| t2.escrow == refunded(r).escrow ==> take_error(t2) == Some(EscrowError::NotFound),
        refund_error(r) is None ==> forall|r2: Refund| r2.escrow == refunded(r).escrow ==> refund_error(r2) == Some(EscrowError::NotFound),
{
}

/// A creation goes through where the amounts are positive, both addresses are
/// free, the record's address is the derived authority of `(maker, seed)`, and
/// the maker's `mint_a` holding is theirs and covers the deposit; the vault
/// then holds exactly the deposit.
pub proof fn lemma_make_succeeds(m: Make, seed: u64, deposit: u64, receive: u64)
    requires
        deposit > 0,
        receive > 0,
        m.escrow is None,
        m.vault is None,
        derived_authority(m.maker@, seed, m.program_id@) matches Some((a, _)) && a == m.escrow_key@,
        m.maker_ata_a.mint@ == m.mint_a@,
        m.maker_ata_a.owner@ == m.maker@,
        m.maker_ata_a.key@ != m.vault_key@,
        m.maker_ata_a.amount >= deposit,
    ensures
        make_error(m, seed, deposit, receive) is None,
        made(m, seed, deposit, receive).vault matches Some(v) && v.amount == deposit && v.mint == m.mint_a
            && v.owner == m.escrow_key,
        made(m, seed, deposit, receive).maker_ata_a.amount == m.maker_ata_a.amount - deposit,
{
}

/// The address and bump of an escrow depend on the maker and the seed alone:
/// two creations that go through for the same maker, seed and program put the
/// record at the same address with the same bump.
pub proof fn lemma_same_inputs_same_authority(
    m1: Make,
    d1: u64,
    r1: u64,
    m2: Make,
    d2: u64,
    r2: u64,
    seed: u64,
)
    requires
        make_error(m1, seed, d1, r1) is None,
        make_error(m2, seed, d2, r2) is None,
        m1.maker@ == m2.maker@,
        m1.program_id@ == m2.program_id@,
    ensures
        m1.escrow_key@ == m2.escrow_key@,
        made(m1, seed, d1, r1).escrow.unwrap().bump == made(m2, seed, d2, r2).escrow.unwrap().bump,
{
}

/// Once every account of a settlement belongs to the record, each leg goes
/// through where the taker can pay and no destination overflows: the payment
/// and the withdrawal of the whole vault are both accepted by the ledger.
pub proof fn lemma_take_legs_go_through(t: Take)
    requires
        t.escrow is Some,
        t.vault is Some,
        take_binds(t, t.escrow.unwrap(), t.vault.unwrap()),
        t.taker_ata_b.amount >= t.escrow.unwrap().receive,
        t.maker_ata_b.amount + t.escrow.unwrap().receive <= u64::MAX,
        t.taker_ata_a.amount + t.vault.unwrap().amount <= u64::MAX,
    ensures
        take_error(t) is None,
        transfer_error(t.taker_ata_b, t.maker_ata_b, t.mint_b, t.taker, t.escrow.unwrap().receive) is None,
        transfer_error(t.vault.unwrap(), t.taker_ata_a, t.mint_a, t.escrow_key, t.vault.unwrap().amount) is None,
{
}

/// A settlement conserves tokens: where every account belongs to a record
/// made with `deposit` and `receive`, the taker can pay and no destination
/// overflows, the settlement goes through; the taker pays exactly `receive`
/// of `mint_b` and the maker gains exactly that, the taker gains exactly the
/// deposit of `mint_a` that the vault held, both mints' totals are unchanged,
/// no holding changes its key, mint or owner, and the vault and the record
/// are gone.
pub proof fn lemma_take_conserves(m: Make, seed: u64, deposit: u64, receive: u64, t: Take)
    requires
        make_error(m, seed, deposit, receive) is None,
        t.escrow == made(m, seed, deposit, receive).escrow,
        t.vault == made(m, seed, deposit, receive).vault,
        take_binds(t, t.escrow.unwrap(), t.vault.unwrap()),
        t.taker_ata_b.amount >= receive,
        t.maker_ata_b.amount + receive <= u64::MAX,
        t.taker_ata_a.amount + deposit <= u64::MAX,
    ensures
        take_error(t) is None,
        after_take(t) == settled(t),
        settled(t).taker_ata_b.amount == t.taker_ata_b.amount - receive,
        settled(t).maker_ata_b.amount == t.maker_ata_b.amount + receive,
        settled(t).taker_ata_a.amount == t.taker_ata_a.amount + deposit,
        settled(t).taker_ata_b.amount + settled(t).maker_ata_b.amount == t.taker_ata_b.amount + t.maker_ata_b.amount,
        settled(t).taker_ata_a.amount == t.taker_ata_a.amount + t.vault.unwrap().amount,
        settled(t).taker_ata_a.key == t.taker_ata_a.key && settled(t).taker_ata_a.mint == t.taker_ata_a.mint
            && settled(t).taker_ata_a.owner == t.taker_ata_a.owner,
        settled(t).taker_ata_b.key == t.taker_ata_b.key && settled(t).taker_ata_b.mint == t.taker_ata_b.mint
            && settled(t).taker_ata_b.owner == t.taker_ata_b.owner,
        settled(t).maker_ata_b.key == t.maker_ata_b.key && settled(t).maker_ata_b.mint == t.maker_ata_b.mint
            && settled(t).maker_ata_b.owner == t.maker_ata_b.owner,
        settled(t).escrow is None,
        settled(t).vault is None,
{
}

/// A cancellation returns exactly the deposit to the maker: where the signer
/// is the record's maker, every account belongs to the record and the
/// maker's holding can take the deposit back without overflow, it goes
/// through, the maker's `mint_a` holding gains exactly the deposit, the total
/// of `mint_a` is unchanged, no other balance changes, and the vault and the
/// record are gone.
pub proof fn lemma_refund_returns_deposit(m: Make, seed: u64, deposit: u64, receive: u64, r: Refund)
    requires
        make_error(m, seed, deposit, receive) is None,
        r.escrow == made(m, seed, deposit, receive).escrow,
        r.vault == made(m, seed, deposit, receive).vault,
        r.maker@ == m.maker@,
        refund_binds(r, r.escrow.unwrap(), r.vault.unwrap()),
        r.maker_ata_a.amount + deposit <= u64::MAX,
    ensures
        refund_error(r) is None,
        after_refund(r) == refunded(r),
        refunded(r).maker_ata_a.amount == r.maker_ata_a.amount + deposit,
        refunded(r).maker_ata_a.amount == r.maker_ata_a.amount + r.vault.unwrap().amount,
        refunded(r).maker_ata_a.key == r.maker_ata_a.key,
        refunded(r).maker_ata_a.mint == r.maker_ata_a.mint,
        refunded(r).maker_ata_a.owner == r.maker_ata_a.owner,
        refunded(r).escrow is None,
        refunded(r).vault is None,
{
}

} // verus!

//! Settlement: a taker pays the maker in `mint_b` and receives the whole
//! vault in `mint_a`; the vault and the record are then closed.
use vstd::prelude::*;

use crate::address::Address;
use crate::authority::{authority_matches, replays_to};
use crate::ledger::{close_account, close_error, transfer, transfer_error, with_amount};
use crate::state::{Escrow, EscrowError, TokenAccount};

verus! {

/// The accounts a settlement works on.
#[derive(Clone, Copy, Debug)]
pub struct Take {
    pub program_id: Address,
    /// The signer who settles.
    pub taker: Address,
    pub maker: Address,
    /// Where the record lives: the derived authority that owns the vault.
    pub escrow_key: Address,
    /// The record; none once it is closed.
    pub escrow: Option<Escrow>,
    pub mint_a: Address,
    pub mint_b: Address,
    /// The holding of the deposit; none once it is closed.
    pub vault: Option<TokenAccount>,
    /// Receives the deposit.
    pub taker_ata_a: TokenAccount,
    /// Pays the maker.
    pub taker_ata_b: TokenAccount,
    /// Receives the payment.
    pub maker_ata_b: TokenAccount,
}

/// No two of the four holdings are the same account.
pub open spec fn keys_distinct(a: TokenAccount, b: TokenAccount, c: TokenAccount, d: TokenAccount) -> bool {
    &&& a.key@ != b.key@
    &&& a.key@ != c.key@
    &&& a.key@ != d.key@
    &&& b.key@ != c.key@
    &&& b.key@ != d.key@
    &&& c.key@ != d.key@
}

/// Every account presented belongs to the record `e` and its vault `v`.
pub open spec fn take_binds(t: Take, e: Escrow, v: TokenAccount) -> bool {
    &&& e.maker@ == t.maker@
    &&& e.mint_a@ == t.mint_a@
    &&& e.mint_b@ == t.mint_b@
    &&& replays_to(t.maker@, e.seed, e.bump, t.program_id@, t.escrow_key@)
    &&& v.mint@ == t.mint_a@
    &&& v.owner@ == t.escrow_key@
    &&& t.taker_ata_a.mint@ == t.mint_a@
    &&& t.taker_ata_a.owner@ == t.taker@
    &&& t.taker_ata_b.mint@ == t.mint_b@
    &&& t.taker_ata_b.owner@ == t.taker@
    &&& t.maker_ata_b.mint@ == t.mint_b@
    &&& t.maker_ata_b.owner@ == t.maker@
    &&& keys_distinct(v, t.taker_ata_a, t.taker_ata_b, t.maker_ata_b)
}

/// Why a settlement is refused; none where it goes through.
pub open spec fn take_error(t: Take) -> Option<EscrowError> {
    match (t.escrow, t.vault) {
        (Some(e), Some(v)) => if !take_binds(t, e, v) {
            Some(EscrowError::Validation)
        } else if t.taker_ata_b.amount < e.receive {
            Some(EscrowError::InsufficientBalance)
        } else if t.maker_ata_b.amount + e.receive > u64::MAX || t.taker_ata_a.amount + v.amount > u64::MAX {
            Some(EscrowError::Overflow)
        } else {
            None
        },
        _ => Some(EscrowError::NotFound),
    }
}

/// The accounts after a settlement that went through.
pub open spec fn settled(t: Take) -> Take {
    let e = t.escrow.unwrap();
    let v = t.vault.unwrap();
    Take {
        escrow: None,
        vault: None,
        taker_ata_a: with_amount(t.taker_ata_a, t.taker_ata_a.amount + v.amount),
        taker_ata_b: with_amount(t.taker_ata_b, t.taker_ata_b.amount - e.receive),
        maker_ata_b: with_amount(t.maker_ata_b, t.maker_ata_b.amount + e.receive),
        ..t
    }
}

/// The accounts after a settlement attempt: settled, or untouched.
pub open spec fn after_take(t: Take) -> Take {
    if take_error(t) is None {
        settled(t)
    } else {
        t
    }
}

impl Take {
    fn binds(&self, e: &Escrow, v: &TokenAccount) -> (r: bool)
        ensures
            r == take_binds(*self, *e, *v),
    {
        e.maker.same(&self.maker) && e.mint_a.same(&self.mint_a) && e.mint_b.same(&self.mint_b)
            && authority_matches(&self.maker, e.seed, e.bump, &self.program_id, &self.escrow_key)
            && v.mint.same(&self.mint_a) && v.owner.same(&self.escrow_key)
            && self.taker_ata_a.mint.same(&self.mint_a) && self.taker_ata_a.owner.same(&self.taker)
            && self.taker_ata_b.mint.same(&self.mint_b) && self.taker_ata_b.owner.same(&self.taker)
            && self.maker_ata_b.mint.same(&self.mint_b) && self.maker_ata_b.owner.same(&self.maker)
            && !v.key.same(&self.taker_ata_a.key) && !v.key.same(&self.taker_ata_b.key)
            && !v.key.same(&self.maker_ata_b.key) && !self.taker_ata_a.key.same(&self.taker_ata_b.key)
            && !self.taker_ata_a.key.same(&self.maker_ata_b.key)
            && !self.taker_ata_b.key.same(&self.maker_ata_b.key)
    }

    /// First leg: the taker pays the record's `receive` tokens of `mint_b`
    /// to the maker.
    pub fn deposit_to_maker(&mut self) -> (r: Result<(), EscrowError>)
        ensures
            match old(self).escrow {
                None => r == Err::<(), EscrowError>(EscrowError::NotFound) && *final(self) == *old(self),
                Some(e) => match transfer_error(old(self).taker_ata_b, old(self).maker_ata_b, old(self).mint_b, old(self).taker, e.receive) {
                    Some(err) => r == Err::<(), EscrowError>(err) && *final(self) == *old(self),
                    None => r is Ok && *final(self) == (Take {
                        taker_ata_b: with_amount(old(self).taker_ata_b, old(self).taker_ata_b.amount - e.receive),
                        maker_ata_b: with_amount(old(self).maker_ata_b, old(self).maker_ata_b.amount + e.receive),
                        ..*old(self)
                    }),
                },
            },
    {
        let receive = match &self.escrow {
            None => return Err(EscrowError::NotFound),
            Some(e) => e.receive,
        };
        transfer(&mut self.taker_ata_b, &mut self.maker_ata_b, &self.mint_b, &self.taker, receive)
    }

    /// Second leg: the whole vault goes to the taker, signed for by the
    /// authority that the record's stored bump reproduces.
    pub fn withdraw_from_vault(&mut self) -> (r: Result<(), EscrowError>)
        ensures
            match (old(self).escrow, old(self).vault) {
                (Some(e), Some(v)) => if !replays_to(old(self).maker@, e.seed, e.bump, old(self).program_id@, old(self).escrow_key@) {
                    r == Err::<(), EscrowError>(EscrowError::Validation) && *final(self) == *old(self)
                } else {
                    match transfer_error(v, old(self).taker_ata_a, old(self).mint_a, old(self).escrow_key, v.amount) {
                        Some(err) => r == Err::<(), EscrowError>(err) && *final(self) == *old(self),
                        None => r is Ok && *final(self) == (Take {
                            vault: Some(with_amount(v, 0)),
                            taker_ata_a: with_amount(old(self).taker_ata_a, old(self).taker_ata_a.amount + v.amount),
                            ..*old(self)
                        }),
                    }
                },
                _ => r == Err::<(), EscrowError>(EscrowError::NotFound) && *final(self) == *old(self),
            },
    {
        let e = match self.escrow {
            None => return Err(EscrowError::NotFound),
            Some(e) => e,
        };
        let mut v = match self.vault {
            None => return Err(EscrowError::NotFound),
            Some(v) => v,
        };
        if !authority_matches(&self.maker, e.seed, e.bump, &self.program_id, &self.escrow_key) {
            return Err(EscrowError::Validation);
        }
        let amount = v.amount;
        let r = transfer(&mut v, &mut self.taker_ata_a, &self.mint_a, &self.escrow_key, amount);
        if r.is_ok() {
            self.vault = Some(v);
        }
        r
    }

    /// Last step: the emptied vault is closed. The record stays; `take`
    /// closes it once every step has gone through.
    pub fn close_vault(&mut self) -> (r: Result<(), EscrowError>)
        ensures
            match (old(self).escrow, old(self).vault) {
                (Some(e), Some(v)) => if !replays_to(old(self).maker@, e.seed, e.bump, old(self).program_id@, old(self).escrow_key@) {
                    r == Err::<(), EscrowError>(EscrowError::Validation) && *final(self) == *old(self)
                } else {
                    match close_error(v, old(self).escrow_key) {
                        Some(err) => r == Err::<(), EscrowError>(err) && *final(self) == *old(self),
                        None => r is Ok && *final(self) == (Take { vault: None, ..*old(self) }),
                    }
                },
                _ => r == Err::<(), EscrowError>(EscrowError::NotFound) && *final(self) == *old(self),
            },
    {
        let e = match self.escrow {
            None => return Err(EscrowError::NotFound),
            Some(e) => e,
        };
        if self.vault.is_none() {
            return Err(EscrowError::NotFound);
        }
        if !authority_matches(&self.maker, e.seed, e.bump, &self.program_id, &self.escrow_key) {
            return Err(EscrowError::Validation);
        }
        close_account(&mut self.vault, &self.escrow_key)
    }
}

/// Settles the escrow: every account is checked first, then the taker pays
/// the maker, receives the vault, and the vault and the record are closed.
/// Either all of it happens or nothing changes.
pub fn take(ctx: &mut Take) -> (r: Result<(), EscrowError>)
    ensures
        match take_error(*old(ctx)) {
            Some(e) => r == Err::<(), EscrowError>(e),
            None => r is Ok,
        },
        *final(ctx) == after_take(*old(ctx)),
{
    let e = match ctx.escrow {
        None => return Err(EscrowError::NotFound),
        Some(e) => e,
    };
    let v = match ctx.vault {
        None => return Err(EscrowError::NotFound),
        Some(v) => v,
    };
    if !ctx.binds(&e, &v) {
        return Err(EscrowError::Validation);
    }
    if ctx.taker_ata_b.amount < e.receive {
        return Err(EscrowError::InsufficientBalance);
    }
    if ctx.maker_ata_b.amount > u64::MAX - e.receive || ctx.taker_ata_a.amount > u64::MAX - v.amount {
        return Err(EscrowError::Overflow);
    }
    let ghost start = *ctx;
    let r1 = ctx.deposit_to_maker();
    if r1.is_err() {
        return r1;
    }
    let r2 = ctx.withdraw_from_vault();
    if r2.is_err() {
        return r2;
    }
    let r3 = ctx.close_vault();
    if r3.is_err() {
        return r3;
    }
    ctx.escrow = None;
    assert(*ctx == settled(start));
    Ok(())
}

} // verus!

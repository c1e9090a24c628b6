//! Cancellation: the maker takes the whole vault back, and the vault and the
//! record are closed.
use vstd::prelude::*;

use crate::address::Address;
use crate::authority::{authority_matches, replays_to};
use crate::ledger::{close_account, transfer, with_amount};
use crate::state::{Escrow, EscrowError, TokenAccount};

verus! {

/// The accounts a cancellation works on.
#[derive(Clone, Copy, Debug)]
pub struct Refund {
    pub program_id: Address,
    /// The signer who cancels; only the record's maker may.
    pub maker: Address,
    pub escrow_key: Address,
    pub escrow: Option<Escrow>,
    pub mint_a: Address,
    pub vault: Option<TokenAccount>,
    /// Receives the deposit back.
    pub maker_ata_a: TokenAccount,
}

/// Every account presented belongs to the record `e` and its vault `v`.
pub open spec fn refund_binds(r: Refund, e: Escrow, v: TokenAccount) -> bool {
    &&& e.mint_a@ == r.mint_a@
    &&& replays_to(r.maker@, e.seed, e.bump, r.program_id@, r.escrow_key@)
    &&& v.mint@ == r.mint_a@
    &&& v.owner@ == r.escrow_key@
    &&& r.maker_ata_a.mint@ == r.mint_a@
    &&& r.maker_ata_a.owner@ == r.maker@
    &&& v.key@ != r.maker_ata_a.key@
}

/// Why a cancellation is refused; none where it goes through.
pub open spec fn refund_error(r: Refund) -> Option<EscrowError> {
    match (r.escrow, r.vault) {
        (Some(e), Some(v)) => if e.maker@ != r.maker@ {
            Some(EscrowError::Unauthorized)
        } else if !refund_binds(r, e, v) {
            Some(EscrowError::Validation)
        } else if r.maker_ata_a.amount + v.amount > u64::MAX {
            Some(EscrowError::Overflow)
        } else {
            None
        },
        _ => Some(EscrowError::NotFound),
    }
}

/// The accounts after a cancellation that went through.
pub open spec fn refunded(r: Refund) -> Refund {
    let v = r.vault.unwrap();
    Refund {
        escrow: None,
        vault: None,
        maker_ata_a: with_amount(r.maker_ata_a, r.maker_ata_a.amount + v.amount),
        ..r
    }
}

/// The accounts after a cancellation attempt: refunded, or untouched.
pub open spec fn after_refund(r: Refund) -> Refund {
    if refund_error(r) is None {
        refunded(r)
    } else {
        r
    }
}

impl Refund {
    /// Returns the whole vault to the maker, then closes the vault and the
    /// record; either all of it happens or nothing changes.
    pub fn refund_and_close_vault(&mut self) -> (r: Result<(), EscrowError>)
        ensures
            match refund_error(*old(self)) {
                Some(e) => r == Err::<(), EscrowError>(e) && *final(self) == *old(self),
                None => r is Ok && *final(self) == refunded(*old(self)),
            },
    {
        let e = match self.escrow {
            None => return Err(EscrowError::NotFound),
            Some(e) => e,
        };
        let mut v = match self.vault {
            None => return Err(EscrowError::NotFound),
            Some(v) => v,
        };
        if !e.maker.same(&self.maker) {
            return Err(EscrowError::Unauthorized);
        }
        if !(e.mint_a.same(&self.mint_a)
            && authority_matches(&self.maker, e.seed, e.bump, &self.program_id, &self.escrow_key)
            && v.mint.same(&self.mint_a) && v.owner.same(&self.escrow_key)
            && self.maker_ata_a.mint.same(&self.mint_a) && self.maker_ata_a.owner.same(&self.maker)
            && !v.key.same(&self.maker_ata_a.key)) {
            return Err(EscrowError::Validation);
        }
        if self.maker_ata_a.amount > u64::MAX - v.amount {
            return Err(EscrowError::Overflow);
        }
        let ghost start = *self;
        let amount = v.amount;
        let mut a = self.maker_ata_a;
        let r1 = transfer(&mut v, &mut a, &self.mint_a, &self.escrow_key, amount);
        if r1.is_err() {
            return r1;
        }
        let mut vault = Some(v);
        let r2 = close_account(&mut vault, &self.escrow_key);
        if r2.is_err() {
            return r2;
        }
        self.maker_ata_a = a;
        self.vault = None;
        self.escrow = None;
        assert(*self == refunded(start));
        Ok(())
    }
}

/// Cancels the escrow on the maker's signature.
pub fn refund(ctx: &mut Refund) -> (r: Result<(), EscrowError>)
    ensures
        match refund_error(*old(ctx)) {
            Some(e) => r == Err::<(), EscrowError>(e),
            None => r is Ok,
        },
        *final(ctx) == after_refund(*old(ctx)),
{
    ctx.refund_and_close_vault()
}

} // verus!

//! Creation: the maker opens a record at the derived authority and locks the
//! deposit in a vault that the authority owns.
use vstd::prelude::*;

use crate::address::Address;
use crate::authority::{derive_authority, derived_authority};
use crate::ledger::{transfer, transfer_error, with_amount};
use crate::state::{Escrow, EscrowError, TokenAccount};

verus! {

/// The accounts a creation works on.
#[derive(Clone, Copy, Debug)]
pub struct Make {
    pub program_id: Address,
    /// The signer who opens the escrow.
    pub maker: Address,
    pub mint_a: Address,
    pub mint_b: Address,
    /// Pays the deposit.
    pub maker_ata_a: TokenAccount,
    /// Where the record is to live.
    pub escrow_key: Address,
    /// Whatever lives there now; none where the address is free.
    pub escrow: Option<Escrow>,
    /// Where the vault is to live.
    pub vault_key: Address,
    pub vault: Option<TokenAccount>,
}

/// Why a creation is refused; none where it goes through.
pub open spec fn make_error(m: Make, seed: u64, deposit: u64, receive: u64) -> Option<EscrowError> {
    if deposit == 0 || receive == 0 {
        Some(EscrowError::Validation)
    } else if m.escrow is Some || m.vault is Some {
        Some(EscrowError::AlreadyInUse)
    } else {
        match derived_authority(m.maker@, seed, m.program_id@) {
            None => Some(EscrowError::Validation),
            Some((a, _)) => if a != m.escrow_key@ || m.maker_ata_a.mint@ != m.mint_a@
                || m.maker_ata_a.owner@ != m.maker@ || m.maker_ata_a.key@ == m.vault_key@ {
                Some(EscrowError::Validation)
            } else if m.maker_ata_a.amount < deposit {
                Some(EscrowError::InsufficientBalance)
            } else {
                None
            },
        }
    }
}

/// The record that `init_escrow` writes.
pub open spec fn new_record(m: Make, seed: u64, receive: u64, bump: u8) -> Escrow {
    Escrow { seed, maker: m.maker, mint_a: m.mint_a, mint_b: m.mint_b, receive, bump }
}

/// The empty vault that `init_escrow` opens, owned by the record's address.
pub open spec fn new_vault(m: Make) -> TokenAccount {
    TokenAccount { key: m.vault_key, mint: m.mint_a, owner: m.escrow_key, amount: 0 }
}

/// The accounts after a creation that went through.
pub open spec fn made(m: Make, seed: u64, deposit: u64, receive: u64) -> Make {
    let bump = derived_authority(m.maker@, seed, m.program_id@).unwrap().1;
    Make {
        escrow: Some(new_record(m, seed, receive, bump)),
        vault: Some(with_amount(new_vault(m), deposit as int)),
        maker_ata_a: with_amount(m.maker_ata_a, m.maker_ata_a.amount - deposit),
        ..m
    }
}

impl Make {
    /// Writes the record and opens its empty vault, where both addresses
    /// are free.
    pub fn init_escrow(&mut self, seed: u64, receive: u64, bump: u8) -> (r: Result<(), EscrowError>)
        ensures
            if old(self).escrow is Some || old(self).vault is Some {
                r == Err::<(), EscrowError>(EscrowError::AlreadyInUse) && *final(self) == *old(self)
            } else {
                r is Ok && *final(self) == (Make {
                    escrow: Some(new_record(*old(self), seed, receive, bump)),
                    vault: Some(new_vault(*old(self))),
                    ..*old(self)
                })
            },
    {
        if self.escrow.is_some() || self.vault.is_some() {
            return Err(EscrowError::AlreadyInUse);
        }
        self.escrow = Some(Escrow {
            seed,
            maker: self.maker,
            mint_a: self.mint_a,
            mint_b: self.mint_b,
            receive,
            bump,
        });
        self.vault = Some(TokenAccount { key: self.vault_key, mint: self.mint_a, owner: self.escrow_key, amount: 0 });
        Ok(())
    }

    /// Moves `amount` tokens of `mint_a` from the maker into the vault.
    pub fn deposit(&mut self, amount: u64) -> (r: Result<(), EscrowError>)
        ensures
            match old(self).vault {
                None => r == Err::<(), EscrowError>(EscrowError::NotFound) && *final(self) == *old(self),
                Some(v) => match transfer_error(old(self).maker_ata_a, v, old(self).mint_a, old(self).maker, amount) {
                    Some(e) => r == Err::<(), EscrowError>(e) && *final(self) == *old(self),
                    None => r is Ok && *final(self) == (Make {
                        maker_ata_a: with_amount(old(self).maker_ata_a, old(self).maker_ata_a.amount - amount),
                        vault: Some(with_amount(v, v.amount + amount)),
                        ..*old(self)
                    }),
                },
            },
    {
        let mut v = match self.vault {
            None => return Err(EscrowError::NotFound),
            Some(v) => v,
        };
        let r = transfer(&mut self.maker_ata_a, &mut v, &self.mint_a, &self.maker, amount);
        if r.is_ok() {
            self.vault = Some(v);
        }
        r
    }
}

/// Opens an escrow: `deposit` tokens of `mint_a` are locked in the vault, and
/// the record asks `receive` tokens of `mint_b` for them. Either both the
/// record and the funded vault exist afterwards, or nothing changed.
pub fn make(ctx: &mut Make, seed: u64, deposit: u64, receive: u64) -> (r: Result<(), EscrowError>)
    ensures
        match make_error(*old(ctx), seed, deposit, receive) {
            Some(e) => r == Err::<(), EscrowError>(e) && *final(ctx) == *old(ctx),
            None => r is Ok && *final(ctx) == made(*old(ctx), seed, deposit, receive),
        },
{
    if deposit == 0 || receive == 0 {
        return Err(EscrowError::Validation);
    }
    if ctx.escrow.is_some() || ctx.vault.is_some() {
        return Err(EscrowError::AlreadyInUse);
    }
    let bump = match derive_authority(&ctx.maker, seed, &ctx.program_id) {
        None => return Err(EscrowError::Validation),
        Some((a, b)) => {
            if !a.same(&ctx.escrow_key) || !ctx.maker_ata_a.mint.same(&ctx.mint_a)
                || !ctx.maker_ata_a.owner.same(&ctx.maker) || ctx.maker_ata_a.key.same(&ctx.vault_key) {
                return Err(EscrowError::Validation);
            }
            b
        },
    };
    if ctx.maker_ata_a.amount < deposit {
        return Err(EscrowError::InsufficientBalance);
    }
    let ghost start = *ctx;
    let r1 = ctx.init_escrow(seed, receive, bump);
    if r1.is_err() {
        return r1;
    }
    let r2 = ctx.deposit(deposit);
    if r2.is_err() {
        return r2;
    }
    assert(*ctx == made(start, seed, deposit, receive));
    Ok(())
}

} // verus!

//! The two token-ledger operations the escrow drives: a checked transfer
//! between holdings of one mint, and closing an empty holding.
use vstd::prelude::*;

use crate::address::Address;
use crate::state::{EscrowError, TokenAccount};

verus! {

/// Why a transfer of `amount` tokens of `mint` from `from` to `to`, signed by
/// `authority`, is refused; none where it goes through.
pub open spec fn transfer_error(from: TokenAccount, to: TokenAccount, mint: Address, authority: Address, amount: u64) -> Option<EscrowError> {
    if from.mint@ != mint@ || to.mint@ != mint@ || from.key@ == to.key@ {
        Some(EscrowError::Validation)
    } else if from.owner@ != authority@ {
        Some(EscrowError::Unauthorized)
    } else if from.amount < amount {
        Some(EscrowError::InsufficientBalance)
    } else if to.amount + amount > u64::MAX {
        Some(EscrowError::Overflow)
    } else {
        None
    }
}

/// `a` with its balance set to `amount`.
pub open spec fn with_amount(a: TokenAccount, amount: int) -> TokenAccount {
    TokenAccount { amount: amount as u64, ..a }
}

/// Moves `amount` tokens of `mint` from `from` to `to` on the signature of
/// `authority`; on an error neither holding changes.
pub fn transfer(from: &mut TokenAccount, to: &mut TokenAccount, mint: &Address, authority: &Address, amount: u64) -> (r: Result<(), EscrowError>)
    ensures
        match transfer_error(*old(from), *old(to), *mint, *authority, amount) {
            Some(e) => r == Err::<(), EscrowError>(e) && *final(from) == *old(from) && *final(to) == *old(to),
            None => r is Ok
                && *final(from) == with_amount(*old(from), old(from).amount - amount)
                && *final(to) == with_amount(*old(to), old(to).amount + amount),
        },
{
    if !from.mint.same(mint) || !to.mint.same(mint) || from.key.same(&to.key) {
        return Err(EscrowError::Validation);
    }
    if !from.owner.same(authority) {
        return Err(EscrowError::Unauthorized);
    }
    if from.amount < amount {
        return Err(EscrowError::InsufficientBalance);
    }
    if to.amount > u64::MAX - amount {
        return Err(EscrowError::Overflow);
    }
    from.amount = from.amount - amount;
    to.amount = to.amount + amount;
    Ok(())
}

/// Why closing `account` on the signature of `authority` is refused; none
/// where it goes through. Only an empty holding can be closed.
pub open spec fn close_error(account: TokenAccount, authority: Address) -> Option<EscrowError> {
    if account.owner@ != authority@ {
        Some(EscrowError::Unauthorized)
    } else if account.amount != 0 {
        Some(EscrowError::Validation)
    } else {
        None
    }
}

/// Closes `account`: it is gone afterwards, unless an error is returned.
pub fn close_account(account: &mut Option<TokenAccount>, authority: &Address) -> (r: Result<(), EscrowError>)
    ensures
        match *old(account) {
            None => r == Err::<(), EscrowError>(EscrowError::NotFound) && *final(account) == *old(account),
            Some(a) => match close_error(a, *authority) {
                Some(e) => r == Err::<(), EscrowError>(e) && *final(account) == *old(account),
                None => r is Ok && *final(account) is None,
            },
        },
{
    match account {
        None => Err(EscrowError::NotFound),
        Some(a) => {
            if !a.owner.same(authority) {
                return Err(EscrowError::Unauthorized);
            }
            if a.amount != 0 {
                return Err(EscrowError::Validation);
            }
            *account = None;
            Ok(())
        },
    }
}

} // verus!

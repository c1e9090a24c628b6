//! The persisted escrow record, token holdings and the error kinds.
use vstd::prelude::*;

use crate::address::Address;

verus! {

/// A holding of one mint's tokens, as the token ledger records it.
#[derive(Clone, Copy, Debug)]
pub struct TokenAccount {
    /// Where the holding lives.
    pub key: Address,
    /// Which kind of token it holds.
    pub mint: Address,
    /// Who may move tokens out of it.
    pub owner: Address,
    pub amount: u64,
}

/// The record of a maker's offer. It lives at the address derived from
/// `maker`, `seed` and `bump`, and that address owns the vault.
#[derive(Clone, Copy, Debug)]
pub struct Escrow {
    pub seed: u64,
    pub maker: Address,
    pub mint_a: Address,
    pub mint_b: Address,
    /// How many tokens of `mint_b` the maker wants.
    pub receive: u64,
    pub bump: u8,
}

#[derive(Clone, Copy, Debug, PartialEq, Eq, Structural)]
pub enum EscrowError {
    /// A holding, mint, owner or address does not belong to the escrow, or an
    /// amount is zero.
    Validation,
    /// The source holding has fewer tokens than the transfer moves.
    InsufficientBalance,
    /// The caller is not the party that must sign.
    Unauthorized,
    /// The record or its vault does not exist (already settled, or never made).
    NotFound,
    /// A record already lives at the derived address.
    AlreadyInUse,
    /// A destination balance would exceed the largest `u64`.
    Overflow,
}

} // verus!

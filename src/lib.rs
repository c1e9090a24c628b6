//! Two-party token escrow: a maker locks tokens of one mint in a vault that a
//! program-derived address controls, and a taker settles the trade atomically
//! or the maker takes the deposit back.
pub mod address;
pub mod authority;
pub mod laws;
pub mod ledger;
pub mod make;
pub mod refund;
pub mod state;
pub mod take;

pub use address::Address;
pub use authority::{authority_matches, derive_authority};
pub use make::{make, Make};
pub use refund::{refund, Refund};
pub use state::{Escrow, EscrowError, TokenAccount};
pub use take::{take, Take};

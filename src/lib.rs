//! A two-party escrow: a maker locks an amount of one asset in a custody
//! vault against a price in a second asset; a taker may pay that price and
//! receive the locked amount, or the maker may cancel and take it back.
//! Each operation is one atomic step over the accounts it is handed: it
//! either applies completely or changes nothing.
use vstd::prelude::*;

pub mod error;
pub mod laws;
pub mod make;
pub mod refund;
pub mod state;
pub mod take;
pub mod vault;

pub use error::{EscrowError, VaultError};
pub use make::{make, MakerAccounts};
pub use refund::{refund, RefundAccounts};
pub use state::{AuthorityToken, Escrow, EscrowStatus, TokenAccount, Vault};
pub use take::{take, TakerAccounts};

verus! {

} // verus!

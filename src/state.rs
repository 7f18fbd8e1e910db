use vstd::prelude::*;

verus! {

/// A holding of one asset by one identity, as kept by the hosting ledger.
#[derive(Debug, Clone, Copy, PartialEq, Eq, Structural)]
pub struct TokenAccount {
    pub owner: u64,
    pub asset: u64,
    pub amount: u64,
}

/// Capability that controls a record's vault. It is derived from the record's
/// identity (maker, asset pair, nonce), so two distinct records never share one.
#[derive(Debug, Clone, Copy, PartialEq, Eq, Structural)]
pub struct AuthorityToken {
    pub maker: u64,
    pub asset_offered: u64,
    pub asset_requested: u64,
    pub nonce: u64,
}

pub open spec fn derived_authority(
    maker: u64,
    asset_offered: u64,
    asset_requested: u64,
    nonce: u64,
) -> AuthorityToken {
    AuthorityToken { maker, asset_offered, asset_requested, nonce }
}

impl AuthorityToken {
    /// Derives the authority of the record keyed by `(maker, asset_offered, asset_requested, nonce)`.
    pub fn derive(maker: u64, asset_offered: u64, asset_requested: u64, nonce: u64) -> (r:
        AuthorityToken)
        ensures
            r == derived_authority(maker, asset_offered, asset_requested, nonce),
    {
        AuthorityToken { maker, asset_offered, asset_requested, nonce }
    }
}

/// Lifecycle of an escrow record: `Initialized` → `Deposited` → `Completed` or
/// `Refunded`. The two terminal states are never stored: the record is
/// deleted as it enters them.
#[derive(Debug, Clone, Copy, PartialEq, Eq, Structural)]
pub enum EscrowStatus {
    Initialized,
    Deposited,
    Completed,
    Refunded,
}

/// One active trade: the maker offers `asset_offered` (held in the vault)
/// and asks for `receive_amount` of `asset_requested`.
#[derive(Debug, Clone, Copy, PartialEq, Eq, Structural)]
pub struct Escrow {
    pub maker: u64,
    pub asset_offered: u64,
    pub asset_requested: u64,
    pub receive_amount: u64,
    pub nonce: u64,
    pub authority: AuthorityToken,
    pub status: EscrowStatus,
}

/// The custody account of one record: it holds `asset` only and is
/// controlled by `authority`.
#[derive(Debug, Clone, Copy, PartialEq, Eq, Structural)]
pub struct Vault {
    pub authority: AuthorityToken,
    pub asset: u64,
    pub amount: u64,
}

/// The invariant of a record slot and its vault slot between operations:
/// either both are empty, or the record is `Deposited` under its derived
/// authority with a positive price, and its vault holds a positive amount of
/// the offered asset under the same authority.
pub open spec fn record_wf(escrow: Option<Escrow>, vault: Option<Vault>) -> bool {
    match (escrow, vault) {
        (None, None) => true,
        (Some(e), Some(v)) => {
            &&& e.status == EscrowStatus::Deposited
            &&& e.receive_amount > 0
            &&& e.authority == derived_authority(e.maker, e.asset_offered, e.asset_requested, e.nonce)
            &&& v.authority == e.authority
            &&& v.asset == e.asset_offered
            &&& v.amount > 0
        },
        _ => false,
    }
}

} // verus!

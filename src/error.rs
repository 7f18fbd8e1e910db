use vstd::prelude::*;

verus! {

/// Failures of the escrow operations (`make`, `take`, `refund`).
#[derive(Debug, Clone, Copy, PartialEq, Eq, Structural)]
pub enum EscrowError {
    /// A token account holds another asset than the record names.
    InvalidMint,
    /// The paying account does not hold enough of the asset.
    InsufficientBalance,
    /// An identity fails an ownership or authority check.
    Unauthorized,
    /// The record is missing or not in the state the operation needs.
    InvalidStatus,
    /// The payment offered differs from the amount the record asks for.
    PaymentAmountMismatch,
    /// An amount of zero was supplied.
    InvalidAmount,
    /// A record (or its vault) already exists under the derived address.
    AlreadyInUse,
}

/// Failures of the custody vault's own operations.
#[derive(Debug, Clone, Copy, PartialEq, Eq, Structural)]
pub enum VaultError {
    /// The authority presented is not the one that controls the vault.
    Unauthorized,
    /// The source account holds less than the amount to move.
    InsufficientFunds,
    /// An amount of zero was supplied.
    InvalidAmount,
    /// The other account holds a different asset than the vault.
    InvalidAsset,
}

pub open spec fn vault_to_escrow_error(e: VaultError) -> EscrowError {
    match e {
        VaultError::Unauthorized => EscrowError::Unauthorized,
        VaultError::InsufficientFunds => EscrowError::InsufficientBalance,
        VaultError::InvalidAmount => EscrowError::InvalidAmount,
        VaultError::InvalidAsset => EscrowError::InvalidMint,
    }
}

/// Reports a vault failure as the escrow failure of the same kind.
pub fn escrow_error_of(e: VaultError) -> (r: EscrowError)
    ensures
        r == vault_to_escrow_error(e),
{
    match e {
        VaultError::Unauthorized => EscrowError::Unauthorized,
        VaultError::InsufficientFunds => EscrowError::InsufficientBalance,
        VaultError::InvalidAmount => EscrowError::InvalidAmount,
        VaultError::InvalidAsset => EscrowError::InvalidMint,
    }
}

} // verus!

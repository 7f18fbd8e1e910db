use vstd::prelude::*;

use crate::error::{escrow_error_of, EscrowError};
use crate::state::{Escrow, EscrowStatus, TokenAccount, Vault};
use crate::vault::close_vault;

verus! {

/// The accounts that `refund` reads and writes: the caller's identity, the
/// record and vault slots, and the maker's holding of the offered asset.
#[derive(Debug, Clone, Copy, PartialEq, Eq, Structural)]
pub struct RefundAccounts {
    pub maker: u64,
    pub escrow: Option<Escrow>,
    pub vault: Option<Vault>,
    pub maker_ata_a: TokenAccount,
}

/// The maker's balance cannot pass `u64::MAX` when the vault returns its
/// holding of the same asset.
pub open spec fn refund_fits(a: RefundAccounts) -> bool {
    (a.vault is Some && a.maker_ata_a.asset == a.vault.unwrap().asset) ==> a.maker_ata_a.amount
        + a.vault.unwrap().amount <= u64::MAX
}

/// Outcome of `refund` on accounts `a`: on success, the record as it was closed.
pub open spec fn refund_result(a: RefundAccounts) -> Result<Escrow, EscrowError> {
    match a.escrow {
        None => Err(EscrowError::InvalidStatus),
        Some(e) => {
            if e.status != EscrowStatus::Deposited || a.vault is None {
                Err(EscrowError::InvalidStatus)
            } else if a.maker != e.maker || a.vault.unwrap().authority != e.authority
                || a.maker_ata_a.owner != e.maker {
                Err(EscrowError::Unauthorized)
            } else if a.vault.unwrap().asset != e.asset_offered || a.maker_ata_a.asset
                != e.asset_offered {
                Err(EscrowError::InvalidMint)
            } else {
                Ok(Escrow { status: EscrowStatus::Refunded, ..e })
            }
        },
    }
}

/// The accounts after a successful `refund`: the record and vault are gone and
/// the maker holds the vault's balance again.
pub open spec fn refund_post(a: RefundAccounts) -> RefundAccounts {
    RefundAccounts {
        escrow: None,
        vault: None,
        maker_ata_a: TokenAccount {
            amount: (a.maker_ata_a.amount + a.vault.unwrap().amount) as u64,
            ..a.maker_ata_a
        },
        ..a
    }
}

impl RefundAccounts {
    /// Moves the vault's whole balance back to the maker, under the record's
    /// authority.
    fn refund(&mut self, escrow: &Escrow) -> (r: Result<(), EscrowError>)
        requires
            old(self).vault is Some,
            old(self).vault.unwrap().authority == escrow.authority,
            old(self).vault.unwrap().asset == old(self).maker_ata_a.asset,
            old(self).maker_ata_a.amount + old(self).vault.unwrap().amount <= u64::MAX,
        ensures
            r is Ok,
            *final(self) == (RefundAccounts {
                vault: Some(Vault { amount: 0, ..old(self).vault.unwrap() }),
                maker_ata_a: TokenAccount {
                    amount: (old(self).maker_ata_a.amount + old(self).vault.unwrap().amount) as u64,
                    ..old(self).maker_ata_a
                },
                ..*old(self)
            }),
    {
        let mut vault = self.vault.unwrap();
        let mut to = self.maker_ata_a;
        match vault.withdraw_all(&mut to, &escrow.authority) {
            Ok(_) => {},
            Err(e) => return Err(escrow_error_of(e)),
        }
        self.maker_ata_a = to;
        self.vault = Some(vault);
        Ok(())
    }

    /// Reclaims the emptied vault under the record's authority.
    fn close_vault(&mut self, escrow: &Escrow) -> (r: Result<(), EscrowError>)
        requires
            old(self).vault is Some,
            old(self).vault.unwrap().amount == 0,
            old(self).vault.unwrap().authority == escrow.authority,
        ensures
            r is Ok,
            *final(self) == (RefundAccounts { vault: None, ..*old(self) }),
    {
        match close_vault(&mut self.vault, &escrow.authority) {
            Ok(()) => Ok(()),
            Err(e) => Err(escrow_error_of(e)),
        }
    }

    /// Cancels the trade: checks that the caller is the maker and the record
    /// is `Deposited`, returns the vault's balance to the maker, reclaims the
    /// vault and deletes the record, returning it as it was closed. Nothing
    /// changes on failure.
    pub fn refund_handler(&mut self) -> (r: Result<Escrow, EscrowError>)
        requires
            refund_fits(*old(self)),
        ensures
            r == refund_result(*old(self)),
            r is Ok ==> *final(self) == refund_post(*old(self)),
            r is Err ==> *final(self) == *old(self),
    {
        let escrow = match self.escrow {
            Some(e) => e,
            None => return Err(EscrowError::InvalidStatus),
        };
        if escrow.status != EscrowStatus::Deposited {
            return Err(EscrowError::InvalidStatus);
        }
        let vault = match self.vault {
            Some(v) => v,
            None => return Err(EscrowError::InvalidStatus),
        };
        if self.maker != escrow.maker || vault.authority != escrow.authority
            || self.maker_ata_a.owner != escrow.maker {
            return Err(EscrowError::Unauthorized);
        }
        if vault.asset != escrow.asset_offered || self.maker_ata_a.asset != escrow.asset_offered {
            return Err(EscrowError::InvalidMint);
        }
        match self.refund(&escrow) {
            Ok(()) => {},
            Err(e) => return Err(e),
        }
        match self.close_vault(&escrow) {
            Ok(()) => {},
            Err(e) => return Err(e),
        }
        self.escrow = None;
        Ok(Escrow { status: EscrowStatus::Refunded, ..escrow })
    }
}

/// Cancels the trade in `accounts` on the maker's behalf.
pub fn refund(accounts: &mut RefundAccounts) -> (r: Result<Escrow, EscrowError>)
    requires
        refund_fits(*old(accounts)),
    ensures
        r == refund_result(*old(accounts)),
        r is Ok ==> *final(accounts) == refund_post(*old(accounts)),
        r is Err ==> *final(accounts) == *old(accounts),
{
    accounts.refund_handler()
}

} // verus!

use vstd::prelude::*;

use crate::error::{escrow_error_of, EscrowError};
use crate::state::{Escrow, EscrowStatus, TokenAccount, Vault};
use crate::vault::close_vault;

verus! {

/// The accounts that `take` reads and writes: the taker's identity, the record
/// and vault slots, the taker's holdings of both assets and the maker's
/// holding of the requested asset.
#[derive(Debug, Clone, Copy, PartialEq, Eq, Structural)]
pub struct TakerAccounts {
    pub taker: u64,
    pub escrow: Option<Escrow>,
    pub vault: Option<Vault>,
    pub taker_ata_a: TokenAccount,
    pub taker_ata_b: TokenAccount,
    pub maker_ata_b: TokenAccount,
}

/// No balance that `take` raises can pass `u64::MAX`: the receiving accounts
/// hold the same asset as the accounts they are paid from.
pub open spec fn take_fits(a: TakerAccounts) -> bool {
    &&& (a.escrow is Some && a.maker_ata_b.asset == a.taker_ata_b.asset) ==> a.maker_ata_b.amount
        + a.escrow.unwrap().receive_amount <= u64::MAX
    &&& (a.vault is Some && a.taker_ata_a.asset == a.vault.unwrap().asset) ==> a.taker_ata_a.amount
        + a.vault.unwrap().amount <= u64::MAX
}

/// Outcome of `take` on accounts `a` with a payment of `payment`: on success,
/// the record as it was closed.
pub open spec fn take_result(a: TakerAccounts, payment: u64) -> Result<Escrow, EscrowError> {
    match a.escrow {
        None => Err(EscrowError::InvalidStatus),
        Some(e) => {
            if e.status != EscrowStatus::Deposited || a.vault is None {
                Err(EscrowError::InvalidStatus)
            } else if a.vault.unwrap().authority != e.authority || a.taker_ata_a.owner != a.taker
                || a.taker_ata_b.owner != a.taker || a.maker_ata_b.owner != e.maker {
                Err(EscrowError::Unauthorized)
            } else if a.vault.unwrap().asset != e.asset_offered || a.taker_ata_a.asset
                != e.asset_offered || a.taker_ata_b.asset != e.asset_requested
                || a.maker_ata_b.asset != e.asset_requested {
                Err(EscrowError::InvalidMint)
            } else if payment != e.receive_amount {
                Err(EscrowError::PaymentAmountMismatch)
            } else if a.taker_ata_b.amount < e.receive_amount {
                Err(EscrowError::InsufficientBalance)
            } else {
                Ok(Escrow { status: EscrowStatus::Completed, ..e })
            }
        },
    }
}

/// The accounts after a successful `take`: the record and vault are gone, the
/// taker holds the vault's balance, and `receive_amount` went from taker to maker.
pub open spec fn take_post(a: TakerAccounts) -> TakerAccounts {
    TakerAccounts {
        escrow: None,
        vault: None,
        taker_ata_a: TokenAccount {
            amount: (a.taker_ata_a.amount + a.vault.unwrap().amount) as u64,
            ..a.taker_ata_a
        },
        taker_ata_b: TokenAccount {
            amount: (a.taker_ata_b.amount - a.escrow.unwrap().receive_amount) as u64,
            ..a.taker_ata_b
        },
        maker_ata_b: TokenAccount {
            amount: (a.maker_ata_b.amount + a.escrow.unwrap().receive_amount) as u64,
            ..a.maker_ata_b
        },
        ..a
    }
}

impl TakerAccounts {
    /// Pays the record's `receive_amount` from the taker to the maker.
    fn transfer_payment(&mut self, receive_amount: u64)
        requires
            receive_amount <= old(self).taker_ata_b.amount,
            old(self).maker_ata_b.amount + receive_amount <= u64::MAX,
        ensures
            *final(self) == (TakerAccounts {
                taker_ata_b: TokenAccount {
                    amount: (old(self).taker_ata_b.amount - receive_amount) as u64,
                    ..old(self).taker_ata_b
                },
                maker_ata_b: TokenAccount {
                    amount: (old(self).maker_ata_b.amount + receive_amount) as u64,
                    ..old(self).maker_ata_b
                },
                ..*old(self)
            }),
    {
        self.taker_ata_b.amount = self.taker_ata_b.amount - receive_amount;
        self.maker_ata_b.amount = self.maker_ata_b.amount + receive_amount;
    }

    /// Moves the vault's whole balance to the taker and reclaims the vault,
    /// under the record's authority.
    fn release_vault(&mut self, escrow: &Escrow) -> (r: Result<(), EscrowError>)
        requires
            old(self).vault is Some,
            old(self).vault.unwrap().authority == escrow.authority,
            old(self).vault.unwrap().asset == old(self).taker_ata_a.asset,
            old(self).taker_ata_a.amount + old(self).vault.unwrap().amount <= u64::MAX,
        ensures
            r is Ok,
            *final(self) == (TakerAccounts {
                vault: None,
                taker_ata_a: TokenAccount {
                    amount: (old(self).taker_ata_a.amount + old(self).vault.unwrap().amount) as u64,
                    ..old(self).taker_ata_a
                },
                ..*old(self)
            }),
    {
        let mut vault = self.vault.unwrap();
        let mut to = self.taker_ata_a;
        match vault.withdraw_all(&mut to, &escrow.authority) {
            Ok(_) => {},
            Err(e) => return Err(escrow_error_of(e)),
        }
        self.taker_ata_a = to;
        let mut slot = Some(vault);
        match close_vault(&mut slot, &escrow.authority) {
            Ok(()) => {},
            Err(e) => return Err(escrow_error_of(e)),
        }
        self.vault = slot;
        Ok(())
    }

    /// Settles the trade: checks the record and the accounts, pays the maker,
    /// hands the vault's balance to the taker, reclaims the vault and deletes
    /// the record, returning it as it was closed. Nothing changes on failure.
    pub fn taker_handler(&mut self, payment: u64) -> (r: Result<Escrow, EscrowError>)
        requires
            take_fits(*old(self)),
        ensures
            r == take_result(*old(self), payment),
            r is Ok ==> *final(self) == take_post(*old(self)),
            r is Err ==> *final(self) == *old(self),
    {
        let escrow = match self.escrow {
            Some(e) => e,
            None => return Err(EscrowError::InvalidStatus),
        };
        if escrow.status != EscrowStatus::Deposited {
            return Err(EscrowError::InvalidStatus);
        }
        let vault = match self.vault {
            Some(v) => v,
            None => return Err(EscrowError::InvalidStatus),
        };
        if vault.authority != escrow.authority || self.taker_ata_a.owner != self.taker
            || self.taker_ata_b.owner != self.taker || self.maker_ata_b.owner != escrow.maker {
            return Err(EscrowError::Unauthorized);
        }
        if vault.asset != escrow.asset_offered || self.taker_ata_a.asset != escrow.asset_offered
            || self.taker_ata_b.asset != escrow.asset_requested || self.maker_ata_b.asset
            != escrow.asset_requested {
            return Err(EscrowError::InvalidMint);
        }
        if payment != escrow.receive_amount {
            return Err(EscrowError::PaymentAmountMismatch);
        }
        if self.taker_ata_b.amount < escrow.receive_amount {
            return Err(EscrowError::InsufficientBalance);
        }
        self.transfer_payment(escrow.receive_amount);
        match self.release_vault(&escrow) {
            Ok(()) => {},
            Err(e) => return Err(e),
        }
        self.escrow = None;
        Ok(Escrow { status: EscrowStatus::Completed, ..escrow })
    }
}

/// Accepts the trade in `accounts`, paying `payment` units of the requested
/// asset, which must equal the record's `receive_amount`.
pub fn take(accounts: &mut TakerAccounts, payment: u64) -> (r: Result<Escrow, EscrowError>)
    requires
        take_fits(*old(accounts)),
    ensures
        r == take_result(*old(accounts), payment),
        r is Ok ==> *final(accounts) == take_post(*old(accounts)),
        r is Err ==> *final(accounts) == *old(accounts),
{
    accounts.taker_handler(payment)
}

} // verus!

use vstd::prelude::*;

use crate::error::VaultError;
use crate::state::{AuthorityToken, TokenAccount, Vault};

verus! {

/// Outcome of moving `amount` from `from` into vault `v`.
pub open spec fn deposit_result(v: Vault, from: TokenAccount, amount: u64) -> Result<(), VaultError> {
    if amount == 0 {
        Err(VaultError::InvalidAmount)
    } else if from.asset != v.asset {
        Err(VaultError::InvalidAsset)
    } else if from.amount < amount {
        Err(VaultError::InsufficientFunds)
    } else {
        Ok(())
    }
}

/// Outcome of emptying vault `v` into `to` under `authority`.
pub open spec fn withdraw_all_result(v: Vault, to: TokenAccount, authority: AuthorityToken) -> Result<
    u64,
    VaultError,
> {
    if authority != v.authority {
        Err(VaultError::Unauthorized)
    } else if to.asset != v.asset {
        Err(VaultError::InvalidAsset)
    } else {
        Ok(v.amount)
    }
}

impl Vault {
    /// A new, empty vault for `asset` under `authority`.
    pub fn open(authority: AuthorityToken, asset: u64) -> (r: Vault)
        ensures
            r == (Vault { authority, asset, amount: 0 }),
    {
        Vault { authority, asset, amount: 0 }
    }

    /// Moves `amount` of the vault's asset from `from` into the vault.
    /// Nothing changes on failure.
    pub fn deposit(&mut self, from: &mut TokenAccount, amount: u64) -> (r: Result<(), VaultError>)
        requires
            old(from).asset == old(self).asset ==> old(self).amount + old(from).amount <= u64::MAX,
        ensures
            r == deposit_result(*old(self), *old(from), amount),
            r is Ok ==> *final(self) == (Vault { amount: (old(self).amount + amount) as u64, ..*old(self) }),
            r is Ok ==> *final(from) == (TokenAccount { amount: (old(from).amount - amount) as u64, ..*old(from) }),
            r is Err ==> *final(self) == *old(self) && *final(from) == *old(from),
    {
        if amount == 0 {
            return Err(VaultError::InvalidAmount);
        }
        if from.asset != self.asset {
            return Err(VaultError::InvalidAsset);
        }
        if from.amount < amount {
            return Err(VaultError::InsufficientFunds);
        }
        from.amount = from.amount - amount;
        self.amount = self.amount + amount;
        Ok(())
    }

    /// Moves the vault's whole balance to `to`, authorized by `authority`,
    /// and returns the amount moved. Nothing changes on failure.
    pub fn withdraw_all(&mut self, to: &mut TokenAccount, authority: &AuthorityToken) -> (r: Result<
        u64,
        VaultError,
    >)
        requires
            old(to).asset == old(self).asset ==> old(to).amount + old(self).amount <= u64::MAX,
        ensures
            r == withdraw_all_result(*old(self), *old(to), *authority),
            r is Ok ==> *final(self) == (Vault { amount: 0, ..*old(self) }),
            r is Ok ==> *final(to) == (TokenAccount { amount: (old(to).amount + old(self).amount) as u64, ..*old(to) }),
            r is Err ==> *final(self) == *old(self) && *final(to) == *old(to),
    {
        if *authority != self.authority {
            return Err(VaultError::Unauthorized);
        }
        if to.asset != self.asset {
            return Err(VaultError::InvalidAsset);
        }
        let moved = self.amount;
        to.amount = to.amount + moved;
        self.amount = 0;
        Ok(moved)
    }
}

/// Reclaims the empty vault in `slot`, authorized by `authority`.
/// The vault must already have been emptied.
pub fn close_vault(slot: &mut Option<Vault>, authority: &AuthorityToken) -> (r: Result<(), VaultError>)
    requires
        *old(slot) is Some,
        old(slot).unwrap().amount == 0,
    ensures
        r is Err <==> *authority != old(slot).unwrap().authority,
        r is Err ==> r == Err::<(), VaultError>(VaultError::Unauthorized) && *final(slot) == *old(slot),
        r is Ok ==> *final(slot) is None,
{
    let v = slot.unwrap();
    if *authority != v.authority {
        return Err(VaultError::Unauthorized);
    }
    *slot = None;
    Ok(())
}

} // verus!

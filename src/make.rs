use vstd::prelude::*;

use crate::error::{escrow_error_of, EscrowError};
use crate::state::{derived_authority, AuthorityToken, Escrow, EscrowStatus, TokenAccount, Vault};

verus! {

/// The accounts that `make` reads and writes: the maker's identity, the asset
/// pair, the record and vault slots at the derived address, and the maker's
/// holding of the offered asset.
#[derive(Debug, Clone, Copy, PartialEq, Eq, Structural)]
pub struct MakerAccounts {
    pub maker: u64,
    pub mint_a: u64,
    pub mint_b: u64,
    pub escrow: Option<Escrow>,
    pub vault: Option<Vault>,
    pub maker_ata_a: TokenAccount,
}

/// Outcome of `make` on accounts `a`.
pub open spec fn make_result(a: MakerAccounts, receive: u64, deposit: u64) -> Result<(), EscrowError> {
    if a.escrow is Some || a.vault is Some {
        Err(EscrowError::AlreadyInUse)
    } else if receive == 0 || deposit == 0 {
        Err(EscrowError::InvalidAmount)
    } else if a.maker_ata_a.owner != a.maker {
        Err(EscrowError::Unauthorized)
    } else if a.maker_ata_a.asset != a.mint_a {
        Err(EscrowError::InvalidMint)
    } else if a.maker_ata_a.amount < deposit {
        Err(EscrowError::InsufficientBalance)
    } else {
        Ok(())
    }
}

/// The record that `make` stores.
pub open spec fn made_escrow(a: MakerAccounts, seed: u64, receive: u64) -> Escrow {
    Escrow {
        maker: a.maker,
        asset_offered: a.mint_a,
        asset_requested: a.mint_b,
        receive_amount: receive,
        nonce: seed,
        authority: derived_authority(a.maker, a.mint_a, a.mint_b, seed),
        status: EscrowStatus::Deposited,
    }
}

/// The accounts after a successful `make`.
pub open spec fn make_post(a: MakerAccounts, seed: u64, receive: u64, deposit: u64) -> MakerAccounts {
    MakerAccounts {
        escrow: Some(made_escrow(a, seed, receive)),
        vault: Some(
            Vault {
                authority: derived_authority(a.maker, a.mint_a, a.mint_b, seed),
                asset: a.mint_a,
                amount: deposit,
            },
        ),
        maker_ata_a: TokenAccount { amount: (a.maker_ata_a.amount - deposit) as u64, ..a.maker_ata_a },
        ..a
    }
}

impl MakerAccounts {
    /// Creates the record in `Initialized` status and opens its empty vault.
    pub fn initialize_escrow_handler(&mut self, seed: u64, receive: u64)
        requires
            old(self).escrow is None,
            old(self).vault is None,
        ensures
            final(self).escrow == Some(
                Escrow { status: EscrowStatus::Initialized, ..made_escrow(*old(self), seed, receive) },
            ),
            final(self).vault == Some(
                Vault {
                    authority: derived_authority(old(self).maker, old(self).mint_a, old(self).mint_b, seed),
                    asset: old(self).mint_a,
                    amount: 0,
                },
            ),
            final(self).maker == old(self).maker,
            final(self).mint_a == old(self).mint_a,
            final(self).mint_b == old(self).mint_b,
            final(self).maker_ata_a == old(self).maker_ata_a,
    {
        let authority = AuthorityToken::derive(self.maker, self.mint_a, self.mint_b, seed);
        self.escrow = Some(
            Escrow {
                maker: self.maker,
                asset_offered: self.mint_a,
                asset_requested: self.mint_b,
                receive_amount: receive,
                nonce: seed,
                authority,
                status: EscrowStatus::Initialized,
            },
        );
        self.vault = Some(Vault::open(authority, self.mint_a));
    }

    /// Moves `deposit_amount` of the offered asset from the maker into the
    /// vault and advances the record to `Deposited`. Nothing changes on failure.
    pub fn deposit_handler(&mut self, deposit_amount: u64) -> (r: Result<(), EscrowError>)
        requires
            (old(self).vault is Some && old(self).maker_ata_a.asset == old(self).vault.unwrap().asset)
                ==> old(self).vault.unwrap().amount + old(self).maker_ata_a.amount <= u64::MAX,
        ensures
            r is Ok <==> (old(self).escrow is Some && old(self).escrow.unwrap().status
                == EscrowStatus::Initialized && old(self).vault is Some && deposit_amount > 0
                && old(self).maker_ata_a.asset == old(self).vault.unwrap().asset
                && deposit_amount <= old(self).maker_ata_a.amount),
            r is Ok ==> *final(self) == (MakerAccounts {
                escrow: Some(Escrow { status: EscrowStatus::Deposited, ..old(self).escrow.unwrap() }),
                vault: Some(
                    Vault {
                        amount: (old(self).vault.unwrap().amount + deposit_amount) as u64,
                        ..old(self).vault.unwrap()
                    },
                ),
                maker_ata_a: TokenAccount {
                    amount: (old(self).maker_ata_a.amount - deposit_amount) as u64,
                    ..old(self).maker_ata_a
                },
                ..*old(self)
            }),
            r is Err ==> *final(self) == *old(self),
            (old(self).escrow is None || old(self).escrow.unwrap().status != EscrowStatus::Initialized
                || old(self).vault is None) ==> r == Err::<(), EscrowError>(EscrowError::InvalidStatus),
    {
        let escrow = match self.escrow {
            Some(e) => e,
            None => return Err(EscrowError::InvalidStatus),
        };
        if escrow.status != EscrowStatus::Initialized {
            return Err(EscrowError::InvalidStatus);
        }
        let mut vault = match self.vault {
            Some(v) => v,
            None => return Err(EscrowError::InvalidStatus),
        };
        let mut from = self.maker_ata_a;
        match vault.deposit(&mut from, deposit_amount) {
            Ok(()) => {},
            Err(e) => return Err(escrow_error_of(e)),
        }
        self.maker_ata_a = from;
        self.vault = Some(vault);
        self.escrow = Some(Escrow { status: EscrowStatus::Deposited, ..escrow });
        Ok(())
    }
}

/// Opens a trade: creates the record keyed by the maker, the asset pair and
/// `seed`, and locks `deposit` units of the offered asset in its vault, asking
/// `receive` units of the requested asset in return. This is one atomic step:
/// on any failure no record and no vault is left behind and nothing moves.
pub fn make(accounts: &mut MakerAccounts, seed: u64, receive: u64, deposit: u64) -> (r: Result<
    (),
    EscrowError,
>)
    ensures
        r == make_result(*old(accounts), receive, deposit),
        r is Ok ==> *final(accounts) == make_post(*old(accounts), seed, receive, deposit),
        r is Err ==> *final(accounts) == *old(accounts),
{
    if accounts.escrow.is_some() || accounts.vault.is_some() {
        return Err(EscrowError::AlreadyInUse);
    }
    if receive == 0 || deposit == 0 {
        return Err(EscrowError::InvalidAmount);
    }
    if accounts.maker_ata_a.owner != accounts.maker {
        return Err(EscrowError::Unauthorized);
    }
    if accounts.maker_ata_a.asset != accounts.mint_a {
        return Err(EscrowError::InvalidMint);
    }
    if accounts.maker_ata_a.amount < deposit {
        return Err(EscrowError::InsufficientBalance);
    }
    accounts.initialize_escrow_handler(seed, receive);
    match accounts.deposit_handler(deposit) {
        Ok(()) => Ok(()),
        Err(e) => Err(e),
    }
}

} // verus!

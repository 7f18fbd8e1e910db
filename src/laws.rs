//! Properties of the escrow operations taken together, stated over the same
//! spec functions that the operations' contracts use.
use vstd::prelude::*;

use crate::error::EscrowError;
use crate::make::{make_post, make_result, MakerAccounts};
use crate::refund::{refund_fits, refund_post, refund_result, RefundAccounts};
use crate::state::{record_wf, Escrow, EscrowStatus};
use crate::take::{take_fits, take_post, take_result, TakerAccounts};

verus! {

/// A successful `make` leaves the record `Deposited` and its vault holding
/// exactly the deposited amount, and the pair satisfies the record invariant.
pub proof fn lemma_make_deposits(a: MakerAccounts, seed: u64, receive: u64, deposit: u64)
    requires
        make_result(a, receive, deposit) is Ok,
    ensures
        make_post(a, seed, receive, deposit).escrow.unwrap().status == EscrowStatus::Deposited,
        make_post(a, seed, receive, deposit).vault.unwrap().amount == deposit,
        record_wf(make_post(a, seed, receive, deposit).escrow, make_post(a, seed, receive, deposit).vault),
{
}

/// `make` with a zero price or a zero deposit fails; on free slots it fails
/// with `InvalidAmount`. (A failed `make` changes no account.)
pub proof fn lemma_make_zero_amount_rejected(a: MakerAccounts, receive: u64, deposit: u64)
    requires
        receive == 0 || deposit == 0,
    ensures
        make_result(a, receive, deposit) is Err,
        (a.escrow is None && a.vault is None) ==> make_result(a, receive, deposit) == Err::<
            (),
            EscrowError,
        >(EscrowError::InvalidAmount),
{
}

/// After `make` and then a successful `take` of that record, the record and
/// vault are gone, the taker has gained exactly the deposited amount of the
/// offered asset, paid exactly the price, and the maker has gained exactly
/// the price in the requested asset.
pub proof fn lemma_make_then_take(
    m: MakerAccounts,
    seed: u64,
    receive: u64,
    deposit: u64,
    t: TakerAccounts,
    payment: u64,
)
    requires
        make_result(m, receive, deposit) is Ok,
        t.escrow == make_post(m, seed, receive, deposit).escrow,
        t.vault == make_post(m, seed, receive, deposit).vault,
        take_fits(t),
        take_result(t, payment) is Ok,
    ensures
        take_post(t).escrow is None,
        take_post(t).vault is None,
        take_post(t).taker_ata_a.amount == t.taker_ata_a.amount + deposit,
        take_post(t).taker_ata_b.amount == t.taker_ata_b.amount - receive,
        take_post(t).maker_ata_b.amount == t.maker_ata_b.amount + receive,
        record_wf(take_post(t).escrow, take_post(t).vault),
{
}

/// After `make`, the maker can always `refund` with the same holding, and the
/// refund restores that holding to its balance before `make`, leaving no
/// record and no vault.
pub proof fn lemma_make_then_refund(m: MakerAccounts, seed: u64, receive: u64, deposit: u64)
    requires
        make_result(m, receive, deposit) is Ok,
    ensures
        ({
            let p = make_post(m, seed, receive, deposit);
            let f = RefundAccounts {
                maker: m.maker,
                escrow: p.escrow,
                vault: p.vault,
                maker_ata_a: p.maker_ata_a,
            };
            &&& refund_fits(f)
            &&& refund_result(f) is Ok
            &&& refund_post(f).maker_ata_a == m.maker_ata_a
            &&& refund_post(f).escrow is None
            &&& refund_post(f).vault is None
        }),
{
}

/// `take` and `refund` against a missing record, or one still `Initialized`,
/// fail with `InvalidStatus`.
pub proof fn lemma_not_deposited_rejected(t: TakerAccounts, payment: u64, f: RefundAccounts)
    requires
        t.escrow is None || t.escrow.unwrap().status == EscrowStatus::Initialized,
        f.escrow is None || f.escrow.unwrap().status == EscrowStatus::Initialized,
    ensures
        take_result(t, payment) == Err::<Escrow, EscrowError>(EscrowError::InvalidStatus),
        refund_result(f) == Err::<Escrow, EscrowError>(EscrowError::InvalidStatus),
{
}

/// `refund` of a live record by anyone but its maker fails with
/// `Unauthorized`. (A failed `refund` changes no account.)
pub proof fn lemma_refund_by_stranger_rejected(f: RefundAccounts)
    requires
        record_wf(f.escrow, f.vault),
        f.escrow is Some,
        f.maker != f.escrow.unwrap().maker,
    ensures
        refund_result(f) == Err::<Escrow, EscrowError>(EscrowError::Unauthorized),
{
}

/// Of a `take` and a `refund` on the same record, run one after the other,
/// at most one succeeds: once `take` has succeeded, `refund` sees
/// `InvalidStatus`, and the vault is gone (its balance is zero).
pub proof fn lemma_take_excludes_refund(t: TakerAccounts, payment: u64, f: RefundAccounts)
    requires
        take_result(t, payment) is Ok,
        f.escrow == take_post(t).escrow,
        f.vault == take_post(t).vault,
    ensures
        refund_result(f) == Err::<Escrow, EscrowError>(EscrowError::InvalidStatus),
        take_post(t).vault is None,
{
}

/// Of a `refund` and a `take` on the same record, run one after the other,
/// at most one succeeds: once `refund` has succeeded, `take` sees
/// `InvalidStatus`, and the vault is gone (its balance is zero).
pub proof fn lemma_refund_excludes_take(f: RefundAccounts, t: TakerAccounts, payment: u64)
    requires
        refund_result(f) is Ok,
        t.escrow == refund_post(f).escrow,
        t.vault == refund_post(f).vault,
    ensures
        take_result(t, payment) == Err::<Escrow, EscrowError>(EscrowError::InvalidStatus),
        refund_post(f).vault is None,
{
}

} // verus!

use anchor_escrow::error::escrow_error_of;
use anchor_escrow::vault::close_vault;
use anchor_escrow::{
    make, refund, take, AuthorityToken, Escrow, EscrowError, EscrowStatus, MakerAccounts,
    RefundAccounts, TakerAccounts, TokenAccount, Vault, VaultError,
};

const MAKER: u64 = 1;
const TAKER: u64 = 2;
const ASSET_A: u64 = 10;
const ASSET_B: u64 = 20;

fn account(owner: u64, asset: u64, amount: u64) -> TokenAccount {
    TokenAccount { owner, asset, amount }
}

fn maker_accounts(balance_a: u64) -> MakerAccounts {
    MakerAccounts {
        maker: MAKER,
        mint_a: ASSET_A,
        mint_b: ASSET_B,
        escrow: None,
        vault: None,
        maker_ata_a: account(MAKER, ASSET_A, balance_a),
    }
}

/// Makes a trade of `deposit` A for `receive` B with nonce 1 and returns the accounts after it.
fn made(balance_a: u64, receive: u64, deposit: u64) -> MakerAccounts {
    let mut m = maker_accounts(balance_a);
    assert_eq!(make(&mut m, 1, receive, deposit), Ok(()));
    m
}

fn taker_accounts(m: &MakerAccounts, taker_b: u64) -> TakerAccounts {
    TakerAccounts {
        taker: TAKER,
        escrow: m.escrow,
        vault: m.vault,
        taker_ata_a: account(TAKER, ASSET_A, 0),
        taker_ata_b: account(TAKER, ASSET_B, taker_b),
        maker_ata_b: account(MAKER, ASSET_B, 0),
    }
}

fn refund_accounts(m: &MakerAccounts, caller: u64) -> RefundAccounts {
    RefundAccounts {
        maker: caller,
        escrow: m.escrow,
        vault: m.vault,
        maker_ata_a: m.maker_ata_a,
    }
}

#[test]
fn example_trade_settles() {
    let m = made(100, 50, 100);
    let e = m.escrow.unwrap();
    assert_eq!(e.status, EscrowStatus::Deposited);
    assert_eq!(m.vault.unwrap().amount, 100);
    assert_eq!(m.maker_ata_a.amount, 0);

    let mut t = taker_accounts(&m, 50);
    let closed = take(&mut t, 50).unwrap();
    assert_eq!(closed.status, EscrowStatus::Completed);
    assert_eq!(closed.receive_amount, 50);
    assert_eq!(t.taker_ata_a.amount, 100);
    assert_eq!(t.taker_ata_b.amount, 0);
    assert_eq!(t.maker_ata_b.amount, 50);
    assert!(t.escrow.is_none());
    assert!(t.vault.is_none());
}

#[test]
fn example_trade_taker_short_of_payment() {
    let m = made(100, 50, 100);
    let mut t = taker_accounts(&m, 30);
    let before = t;
    assert_eq!(take(&mut t, 50), Err(EscrowError::InsufficientBalance));
    assert_eq!(t, before);
    assert_eq!(t.vault.unwrap().amount, 100);
    assert_eq!(t.escrow.unwrap().status, EscrowStatus::Deposited);
}

#[test]
fn make_records_deposit() {
    let m = made(250, 7, 40);
    let e = m.escrow.unwrap();
    assert_eq!(e.maker, MAKER);
    assert_eq!(e.asset_offered, ASSET_A);
    assert_eq!(e.asset_requested, ASSET_B);
    assert_eq!(e.receive_amount, 7);
    assert_eq!(e.nonce, 1);
    assert_eq!(e.status, EscrowStatus::Deposited);
    assert_eq!(e.authority, AuthorityToken::derive(MAKER, ASSET_A, ASSET_B, 1));
    let v = m.vault.unwrap();
    assert_eq!(v.amount, 40);
    assert_eq!(v.asset, ASSET_A);
    assert_eq!(v.authority, e.authority);
    assert_eq!(m.maker_ata_a.amount, 210);
}

#[test]
fn make_zero_deposit_creates_nothing() {
    let mut m = maker_accounts(100);
    let before = m;
    assert_eq!(make(&mut m, 1, 50, 0), Err(EscrowError::InvalidAmount));
    assert_eq!(m, before);
    assert!(m.escrow.is_none());
    assert!(m.vault.is_none());
}

#[test]
fn make_zero_receive_creates_nothing() {
    let mut m = maker_accounts(100);
    let before = m;
    assert_eq!(make(&mut m, 1, 0, 10), Err(EscrowError::InvalidAmount));
    assert_eq!(m, before);
}

#[test]
fn make_twice_same_slot_rejected() {
    let mut m = made(100, 5, 60);
    let before = m;
    assert_eq!(make(&mut m, 1, 5, 10), Err(EscrowError::AlreadyInUse));
    assert_eq!(m, before);
}

#[test]
fn make_maker_short_of_deposit() {
    let mut m = maker_accounts(99);
    let before = m;
    assert_eq!(make(&mut m, 1, 5, 100), Err(EscrowError::InsufficientBalance));
    assert_eq!(m, before);
}

#[test]
fn make_with_foreign_holding_rejected() {
    let mut m = maker_accounts(100);
    m.maker_ata_a.owner = TAKER;
    assert_eq!(make(&mut m, 1, 5, 10), Err(EscrowError::Unauthorized));
    let mut m = maker_accounts(100);
    m.maker_ata_a.asset = ASSET_B;
    assert_eq!(make(&mut m, 1, 5, 10), Err(EscrowError::InvalidMint));
}

#[test]
fn deposit_whole_balance_is_allowed() {
    let m = made(100, 1, 100);
    assert_eq!(m.maker_ata_a.amount, 0);
    assert_eq!(m.vault.unwrap().amount, 100);
}

#[test]
fn take_moves_exact_amounts() {
    let m = made(500, 30, 120);
    let mut t = taker_accounts(&m, 45);
    t.taker_ata_a.amount = 8;
    t.maker_ata_b.amount = 2;
    assert!(take(&mut t, 30).is_ok());
    assert_eq!(t.taker_ata_a.amount, 128);
    assert_eq!(t.taker_ata_b.amount, 15);
    assert_eq!(t.maker_ata_b.amount, 32);
    assert!(t.escrow.is_none());
    assert!(t.vault.is_none());
}

#[test]
fn take_wrong_payment_rejected() {
    let m = made(100, 50, 100);
    let mut t = taker_accounts(&m, 100);
    let before = t;
    assert_eq!(take(&mut t, 49), Err(EscrowError::PaymentAmountMismatch));
    assert_eq!(t, before);
}

#[test]
fn take_wrong_accounts_rejected() {
    let m = made(100, 50, 100);
    let mut t = taker_accounts(&m, 100);
    t.maker_ata_b.owner = TAKER;
    assert_eq!(take(&mut t, 50), Err(EscrowError::Unauthorized));
    let mut t = taker_accounts(&m, 100);
    t.taker_ata_b.asset = ASSET_A;
    assert_eq!(take(&mut t, 50), Err(EscrowError::InvalidMint));
}

#[test]
fn refund_restores_maker_balance() {
    let m = made(100, 50, 100);
    let mut f = refund_accounts(&m, MAKER);
    let closed = refund(&mut f).unwrap();
    assert_eq!(closed.status, EscrowStatus::Refunded);
    assert_eq!(f.maker_ata_a.amount, 100);
    assert!(f.escrow.is_none());
    assert!(f.vault.is_none());
}

#[test]
fn refund_partial_deposit_restores_maker_balance() {
    let m = made(300, 9, 75);
    assert_eq!(m.maker_ata_a.amount, 225);
    let mut f = refund_accounts(&m, MAKER);
    assert!(refund(&mut f).is_ok());
    assert_eq!(f.maker_ata_a.amount, 300);
}

#[test]
fn refund_by_stranger_rejected() {
    let m = made(100, 50, 100);
    let mut f = refund_accounts(&m, TAKER);
    let before = f;
    assert_eq!(refund(&mut f), Err(EscrowError::Unauthorized));
    assert_eq!(f, before);
    assert_eq!(f.vault.unwrap().amount, 100);
}

#[test]
fn initialized_record_rejected() {
    let mut m = maker_accounts(100);
    m.initialize_escrow_handler(1, 50);
    assert_eq!(m.escrow.unwrap().status, EscrowStatus::Initialized);
    assert_eq!(m.vault.unwrap().amount, 0);
    let mut t = taker_accounts(&m, 50);
    assert_eq!(take(&mut t, 50), Err(EscrowError::InvalidStatus));
    let mut f = refund_accounts(&m, MAKER);
    assert_eq!(refund(&mut f), Err(EscrowError::InvalidStatus));
}

#[test]
fn deleted_record_rejected() {
    let m = maker_accounts(100);
    let mut t = taker_accounts(&m, 50);
    assert_eq!(take(&mut t, 50), Err(EscrowError::InvalidStatus));
    let mut f = refund_accounts(&m, MAKER);
    assert_eq!(refund(&mut f), Err(EscrowError::InvalidStatus));
}

#[test]
fn take_then_refund_only_one_succeeds() {
    let m = made(100, 50, 100);
    let mut t = taker_accounts(&m, 50);
    assert!(take(&mut t, 50).is_ok());
    let mut f = RefundAccounts { maker: MAKER, escrow: t.escrow, vault: t.vault, maker_ata_a: m.maker_ata_a };
    assert_eq!(refund(&mut f), Err(EscrowError::InvalidStatus));
    assert!(f.vault.is_none());
}

#[test]
fn refund_then_take_only_one_succeeds() {
    let m = made(100, 50, 100);
    let mut f = refund_accounts(&m, MAKER);
    assert!(refund(&mut f).is_ok());
    let mut t = taker_accounts(&m, 50);
    t.escrow = f.escrow;
    t.vault = f.vault;
    assert_eq!(take(&mut t, 50), Err(EscrowError::InvalidStatus));
    assert!(t.vault.is_none());
}

#[test]
fn deposit_handler_needs_initialized_record() {
    let mut m = maker_accounts(100);
    assert_eq!(m.deposit_handler(10), Err(EscrowError::InvalidStatus));
    let mut m = made(100, 5, 10);
    let before = m;
    assert_eq!(m.deposit_handler(10), Err(EscrowError::InvalidStatus));
    assert_eq!(m, before);
}

#[test]
fn vault_deposit_and_withdraw() {
    let auth = AuthorityToken::derive(MAKER, ASSET_A, ASSET_B, 3);
    let mut v = Vault::open(auth, ASSET_A);
    let mut from = account(MAKER, ASSET_A, 20);
    assert_eq!(v.deposit(&mut from, 0), Err(VaultError::InvalidAmount));
    assert_eq!(v.deposit(&mut from, 21), Err(VaultError::InsufficientFunds));
    let mut other = account(MAKER, ASSET_B, 20);
    assert_eq!(v.deposit(&mut other, 5), Err(VaultError::InvalidAsset));
    assert_eq!(v.deposit(&mut from, 15), Ok(()));
    assert_eq!(v.amount, 15);
    assert_eq!(from.amount, 5);

    let mut to = account(TAKER, ASSET_A, 1);
    let wrong = AuthorityToken::derive(MAKER, ASSET_A, ASSET_B, 4);
    assert_eq!(v.withdraw_all(&mut to, &wrong), Err(VaultError::Unauthorized));
    assert_eq!(v.amount, 15);
    assert_eq!(v.withdraw_all(&mut to, &auth), Ok(15));
    assert_eq!(v.amount, 0);
    assert_eq!(to.amount, 16);

    let mut slot = Some(v);
    assert_eq!(close_vault(&mut slot, &wrong), Err(VaultError::Unauthorized));
    assert!(slot.is_some());
    assert_eq!(close_vault(&mut slot, &auth), Ok(()));
    assert!(slot.is_none());
}

#[test]
fn authorities_differ_per_nonce() {
    let a = AuthorityToken::derive(MAKER, ASSET_A, ASSET_B, 1);
    let b = AuthorityToken::derive(MAKER, ASSET_A, ASSET_B, 2);
    assert_ne!(a, b);
    assert_eq!(a, AuthorityToken::derive(MAKER, ASSET_A, ASSET_B, 1));
}

#[test]
fn vault_errors_map_to_escrow_errors() {
    assert_eq!(escrow_error_of(VaultError::Unauthorized), EscrowError::Unauthorized);
    assert_eq!(escrow_error_of(VaultError::InsufficientFunds), EscrowError::InsufficientBalance);
    assert_eq!(escrow_error_of(VaultError::InvalidAmount), EscrowError::InvalidAmount);
    assert_eq!(escrow_error_of(VaultError::InvalidAsset), EscrowError::InvalidMint);
}

#[test]
fn closed_record_keeps_terms() {
    let m = made(100, 50, 100);
    let mut f = refund_accounts(&m, MAKER);
    let closed: Escrow = refund(&mut f).unwrap();
    assert_eq!(closed, Escrow { status: EscrowStatus::Refunded, ..m.escrow.unwrap() });
}

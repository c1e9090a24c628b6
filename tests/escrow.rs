use escrowk::address::to_le_bytes;
use escrowk::ledger::{close_account, transfer};
use escrowk::{
    authority_matches, derive_authority, make, refund, take, Address, EscrowError, Make, Refund,
    Take, TokenAccount,
};

fn addr(b: u8) -> Address {
    Address::new([b; 32])
}

fn program() -> Address {
    addr(200)
}

fn maker() -> Address {
    addr(1)
}

fn taker() -> Address {
    addr(2)
}

fn mint_a() -> Address {
    addr(10)
}

fn mint_b() -> Address {
    addr(11)
}

fn holding(key: u8, mint: Address, owner: Address, amount: u64) -> TokenAccount {
    TokenAccount { key: addr(key), mint, owner, amount }
}

fn escrow_key(seed: u64) -> Address {
    derive_authority(&maker(), seed, &program()).unwrap().0
}

fn make_ctx(seed: u64, maker_a: u64) -> Make {
    Make {
        program_id: program(),
        maker: maker(),
        mint_a: mint_a(),
        mint_b: mint_b(),
        maker_ata_a: holding(20, mint_a(), maker(), maker_a),
        escrow_key: escrow_key(seed),
        escrow: None,
        vault_key: addr(30),
        vault: None,
    }
}

fn made_escrow(seed: u64) -> Make {
    let mut m = make_ctx(seed, 5000);
    assert_eq!(make(&mut m, seed, 1000, 500), Ok(()));
    m
}

fn take_ctx(m: &Make, taker_b: u64) -> Take {
    Take {
        program_id: program(),
        taker: taker(),
        maker: maker(),
        escrow_key: m.escrow_key,
        escrow: m.escrow,
        mint_a: mint_a(),
        mint_b: mint_b(),
        vault: m.vault,
        taker_ata_a: holding(40, mint_a(), taker(), 0),
        taker_ata_b: holding(41, mint_b(), taker(), taker_b),
        maker_ata_b: holding(21, mint_b(), maker(), 0),
    }
}

fn refund_ctx(m: &Make, signer: Address) -> Refund {
    Refund {
        program_id: program(),
        maker: signer,
        escrow_key: m.escrow_key,
        escrow: m.escrow,
        mint_a: mint_a(),
        vault: m.vault,
        maker_ata_a: holding(20, mint_a(), signer, m.maker_ata_a.amount),
    }
}

#[test]
fn create_locks_deposit_in_vault() {
    let m = made_escrow(7);
    let e = m.escrow.unwrap();
    assert_eq!(e.seed, 7);
    assert_eq!(e.receive, 500);
    assert_eq!(e.maker.bytes, maker().bytes);
    assert_eq!(e.mint_a.bytes, mint_a().bytes);
    assert_eq!(e.mint_b.bytes, mint_b().bytes);
    assert_eq!(e.bump, derive_authority(&maker(), 7, &program()).unwrap().1);
    let v = m.vault.unwrap();
    assert_eq!(v.amount, 1000);
    assert_eq!(v.owner.bytes, m.escrow_key.bytes);
    assert_eq!(v.mint.bytes, mint_a().bytes);
    assert_eq!(m.maker_ata_a.amount, 4000);
}

#[test]
fn fulfill_swaps_both_legs() {
    let m = made_escrow(7);
    let mut t = take_ctx(&m, 800);
    assert_eq!(take(&mut t), Ok(()));
    assert_eq!(t.taker_ata_a.amount, 1000);
    assert_eq!(t.taker_ata_b.amount, 300);
    assert_eq!(t.maker_ata_b.amount, 500);
    assert!(t.escrow.is_none());
    assert!(t.vault.is_none());
}

#[test]
fn fulfill_with_exact_balance() {
    let m = made_escrow(7);
    let mut t = take_ctx(&m, 500);
    assert_eq!(take(&mut t), Ok(()));
    assert_eq!(t.taker_ata_b.amount, 0);
    assert_eq!(t.maker_ata_b.amount, 500);
}

#[test]
fn cancel_returns_deposit() {
    let m = made_escrow(7);
    let mut r = refund_ctx(&m, maker());
    assert_eq!(refund(&mut r), Ok(()));
    assert_eq!(r.maker_ata_a.amount, 5000);
    assert!(r.escrow.is_none());
    assert!(r.vault.is_none());
}

#[test]
fn second_fulfill_finds_nothing() {
    let m = made_escrow(7);
    let mut t = take_ctx(&m, 1000);
    assert_eq!(take(&mut t), Ok(()));
    let before = t;
    assert_eq!(take(&mut t), Err(EscrowError::NotFound));
    assert_eq!(t.taker_ata_a.amount, before.taker_ata_a.amount);
    assert_eq!(t.taker_ata_b.amount, before.taker_ata_b.amount);
    let mut other = take_ctx(&m, 1000);
    other.escrow = t.escrow;
    other.vault = t.vault;
    other.taker = addr(3);
    assert_eq!(take(&mut other), Err(EscrowError::NotFound));
}

#[test]
fn cancel_after_fulfill_finds_nothing() {
    let m = made_escrow(7);
    let mut t = take_ctx(&m, 1000);
    assert_eq!(take(&mut t), Ok(()));
    let mut r = refund_ctx(&m, maker());
    r.escrow = t.escrow;
    r.vault = t.vault;
    assert_eq!(refund(&mut r), Err(EscrowError::NotFound));
    assert_eq!(r.maker_ata_a.amount, 4000);
}

#[test]
fn fulfill_after_cancel_finds_nothing() {
    let m = made_escrow(7);
    let mut r = refund_ctx(&m, maker());
    assert_eq!(refund(&mut r), Ok(()));
    assert_eq!(refund(&mut r), Err(EscrowError::NotFound));
    let mut t = take_ctx(&m, 1000);
    t.escrow = r.escrow;
    t.vault = r.vault;
    assert_eq!(take(&mut t), Err(EscrowError::NotFound));
}

#[test]
fn zero_deposit_rejected() {
    let mut m = make_ctx(7, 5000);
    assert_eq!(make(&mut m, 7, 0, 500), Err(EscrowError::Validation));
    assert!(m.escrow.is_none());
    assert!(m.vault.is_none());
    assert_eq!(m.maker_ata_a.amount, 5000);
}

#[test]
fn zero_receive_rejected() {
    let mut m = make_ctx(7, 5000);
    assert_eq!(make(&mut m, 7, 1000, 0), Err(EscrowError::Validation));
    assert!(m.escrow.is_none());
}

#[test]
fn create_with_insufficient_balance() {
    let mut m = make_ctx(7, 999);
    assert_eq!(make(&mut m, 7, 1000, 500), Err(EscrowError::InsufficientBalance));
    assert!(m.escrow.is_none());
    assert_eq!(m.maker_ata_a.amount, 999);
}

#[test]
fn create_twice_collides() {
    let mut m = made_escrow(7);
    assert_eq!(make(&mut m, 7, 1000, 500), Err(EscrowError::AlreadyInUse));
    assert_eq!(m.vault.unwrap().amount, 1000);
}

#[test]
fn create_at_wrong_address_rejected() {
    let mut m = make_ctx(7, 5000);
    m.escrow_key = escrow_key(8);
    assert_eq!(make(&mut m, 7, 1000, 500), Err(EscrowError::Validation));
    assert!(m.escrow.is_none());
}

#[test]
fn fulfill_with_insufficient_b() {
    let m = made_escrow(7);
    let mut t = take_ctx(&m, 499);
    assert_eq!(take(&mut t), Err(EscrowError::InsufficientBalance));
    assert_eq!(t.vault.unwrap().amount, 1000);
    assert_eq!(t.taker_ata_b.amount, 499);
    assert_eq!(t.maker_ata_b.amount, 0);
}

#[test]
fn fulfill_with_wrong_mint_rejected() {
    let m = made_escrow(7);
    let mut t = take_ctx(&m, 1000);
    t.taker_ata_b.mint = addr(12);
    assert_eq!(take(&mut t), Err(EscrowError::Validation));
    assert_eq!(t.vault.unwrap().amount, 1000);
}

#[test]
fn fulfill_with_forged_bump_rejected() {
    let m = made_escrow(7);
    let mut t = take_ctx(&m, 1000);
    let mut e = t.escrow.unwrap();
    e.seed = 8;
    t.escrow = Some(e);
    assert_eq!(take(&mut t), Err(EscrowError::Validation));
    assert_eq!(t.taker_ata_a.amount, 0);
}

#[test]
fn fulfill_with_overflowing_payee() {
    let m = made_escrow(7);
    let mut t = take_ctx(&m, 1000);
    t.maker_ata_b.amount = u64::MAX - 499;
    assert_eq!(take(&mut t), Err(EscrowError::Overflow));
    assert_eq!(t.taker_ata_b.amount, 1000);
}

#[test]
fn cancel_by_stranger_unauthorized() {
    let m = made_escrow(7);
    let mut r = refund_ctx(&m, taker());
    assert_eq!(refund(&mut r), Err(EscrowError::Unauthorized));
    assert_eq!(r.vault.unwrap().amount, 1000);
}

#[test]
fn steps_of_settlement_one_by_one() {
    let m = made_escrow(7);
    let mut t = take_ctx(&m, 600);
    assert_eq!(t.deposit_to_maker(), Ok(()));
    assert_eq!(t.maker_ata_b.amount, 500);
    assert_eq!(t.withdraw_from_vault(), Ok(()));
    assert_eq!(t.vault.unwrap().amount, 0);
    assert_eq!(t.taker_ata_a.amount, 1000);
    assert_eq!(t.close_vault(), Ok(()));
    assert!(t.vault.is_none());
    assert!(t.escrow.is_some());
    assert_eq!(t.taker_ata_a.amount, 1000);
    assert_eq!(t.maker_ata_b.amount, 500);
    assert_eq!(t.close_vault(), Err(EscrowError::NotFound));
}

#[test]
fn closing_a_funded_vault_refused() {
    let m = made_escrow(7);
    let mut t = take_ctx(&m, 600);
    assert_eq!(t.close_vault(), Err(EscrowError::Validation));
    assert!(t.vault.is_some());
}

#[test]
fn derivation_is_deterministic() {
    let a = derive_authority(&maker(), 7, &program()).unwrap();
    let b = derive_authority(&maker(), 7, &program()).unwrap();
    assert_eq!(a.0.bytes, b.0.bytes);
    assert_eq!(a.1, b.1);
    assert!(a.1 >= 1);
    assert!(authority_matches(&maker(), 7, a.1, &program(), &a.0));
}

#[test]
fn derivation_depends_on_inputs() {
    let a = derive_authority(&maker(), 7, &program()).unwrap();
    let b = derive_authority(&maker(), 8, &program()).unwrap();
    let c = derive_authority(&taker(), 7, &program()).unwrap();
    assert_ne!(a.0.bytes, b.0.bytes);
    assert_ne!(a.0.bytes, c.0.bytes);
    assert_ne!(a.0.bytes, maker().bytes);
    assert!(!authority_matches(&maker(), 7, a.1, &program(), &b.0));
    assert!(!authority_matches(&maker(), 8, a.1, &program(), &a.0));
}

#[test]
fn le_bytes_of_seed() {
    assert_eq!(to_le_bytes(7), vec![7, 0, 0, 0, 0, 0, 0, 0]);
    assert_eq!(to_le_bytes(0x0102_0304_0506_0708), vec![8, 7, 6, 5, 4, 3, 2, 1]);
}

#[test]
fn transfer_moves_and_checks() {
    let mut from = holding(1, mint_a(), maker(), 10);
    let mut to = holding(2, mint_a(), taker(), 5);
    assert_eq!(transfer(&mut from, &mut to, &mint_a(), &maker(), 4), Ok(()));
    assert_eq!((from.amount, to.amount), (6, 9));
    assert_eq!(transfer(&mut from, &mut to, &mint_a(), &taker(), 1), Err(EscrowError::Unauthorized));
    assert_eq!(transfer(&mut from, &mut to, &mint_b(), &maker(), 1), Err(EscrowError::Validation));
    assert_eq!(transfer(&mut from, &mut to, &mint_a(), &maker(), 7), Err(EscrowError::InsufficientBalance));
    assert_eq!((from.amount, to.amount), (6, 9));
}

#[test]
fn close_requires_empty_holding() {
    let mut v = Some(holding(3, mint_a(), maker(), 1));
    assert_eq!(close_account(&mut v, &maker()), Err(EscrowError::Validation));
    let mut w = Some(holding(3, mint_a(), maker(), 0));
    assert_eq!(close_account(&mut w, &taker()), Err(EscrowError::Unauthorized));
    assert_eq!(close_account(&mut w, &maker()), Ok(()));
    assert!(w.is_none());
}

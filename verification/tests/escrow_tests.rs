use custody_vault::derivation::Namespace;
use custody_vault::error::Error;
use custody_vault::escrow::{cancel, fulfil, make_offer, EscrowStatus, MakeOffer};
use custody_vault::identity::Identity;
use custody_vault::transfer::{AssetKind, Signing};

fn id(b: u8) -> Identity {
    Identity { bytes: [b; 32] }
}

fn open_offer(seed: u64, amount: u64) -> custody_vault::escrow::EscrowAccount {
    let ctx = MakeOffer {
        maker: id(1),
        maker_token: id(2),
        taker_token: id(3),
        escrow_allocated: false,
        program: id(9),
    };
    let (acct, lock) = make_offer(&ctx, amount, seed).expect("offer should open");
    assert_eq!(lock.from, id(1));
    assert_eq!(lock.to, acct.vault_addr);
    assert_eq!(lock.amount, amount);
    assert_eq!(lock.asset, AssetKind::Token(id(2)));
    acct
}

#[test]
fn offer_locks_the_maker_asset() {
    let acct = open_offer(7, 50);
    assert_eq!(acct.escrow.status, EscrowStatus::Open);
    assert_eq!(acct.vault_balance, 50);
    assert_eq!(acct.escrow.maker, id(1));
    assert_eq!(acct.escrow.offer_amount, 50);
    assert_eq!(acct.escrow.seed, 7);
}

#[test]
fn offer_refuses_allocated_escrow() {
    let ctx = MakeOffer {
        maker: id(1),
        maker_token: id(2),
        taker_token: id(3),
        escrow_allocated: true,
        program: id(9),
    };
    assert_eq!(make_offer(&ctx, 50, 7).unwrap_err(), Error::AlreadyInitialized);
}

#[test]
fn distinct_seeds_give_distinct_escrows() {
    let a = open_offer(7, 50);
    let b = open_offer(8, 50);
    assert_ne!(a.escrow_addr, b.escrow_addr);
}

#[test]
fn cancel_returns_asset_and_resolves_once() {
    let maker = id(1);
    let mut acct = open_offer(7, 50);
    let ix = cancel(&mut acct, &maker).expect("the maker may cancel an open escrow");
    assert_eq!(ix.from, acct.vault_addr);
    assert_eq!(ix.to, maker);
    assert_eq!(ix.amount, 50);
    assert_eq!(ix.asset, AssetKind::Token(id(2)));
    assert_eq!(acct.escrow.status, EscrowStatus::Cancelled);
    assert_eq!(acct.vault_balance, 0);

    let taker = id(4);
    assert_eq!(fulfil(&mut acct, &taker).unwrap_err(), Error::AlreadyResolved);
    assert_eq!(cancel(&mut acct, &maker).unwrap_err(), Error::AlreadyResolved);
    assert_eq!(acct.escrow.status, EscrowStatus::Cancelled);
}

#[test]
fn fulfil_emits_both_legs_together() {
    let taker = id(4);
    let mut acct = open_offer(7, 50);
    let (payment, release) = fulfil(&mut acct, &taker).expect("an open escrow can be fulfilled");
    assert_eq!(payment.from, taker);
    assert_eq!(payment.to, id(1));
    assert_eq!(payment.amount, 50);
    assert_eq!(payment.asset, AssetKind::Token(id(3)));
    assert!(matches!(payment.signing, Signing::Caller(c) if c == taker));
    assert_eq!(release.from, acct.vault_addr);
    assert_eq!(release.to, taker);
    assert_eq!(release.amount, 50);
    assert_eq!(release.asset, AssetKind::Token(id(2)));
    match release.signing {
        Signing::Authority(da) => {
            assert_eq!(da.namespace(), Namespace::Auth);
            assert_eq!(da.parent_bytes(), acct.escrow_addr.bytes.to_vec());
            assert_eq!(da.bump(), acct.escrow.auth_bump);
        }
        Signing::Caller(_) => panic!("the release must be signed by the derived authority"),
    }
    assert_eq!(acct.escrow.status, EscrowStatus::Fulfilled);
    assert_eq!(acct.vault_balance, 0);

    assert_eq!(fulfil(&mut acct, &taker).unwrap_err(), Error::AlreadyResolved);
}

#[test]
fn only_the_maker_may_cancel() {
    let mut acct = open_offer(7, 50);
    let stranger = id(6);
    assert_eq!(cancel(&mut acct, &stranger).unwrap_err(), Error::NotMaker);
    assert_eq!(acct.escrow.status, EscrowStatus::Open);
    assert_eq!(acct.vault_balance, 50);
}

#[test]
fn forged_escrow_address_is_not_found() {
    let taker = id(4);
    let mut acct = open_offer(7, 50);
    acct.escrow_addr = id(42);
    assert_eq!(fulfil(&mut acct, &taker).unwrap_err(), Error::EscrowNotFound);
    assert_eq!(acct.escrow.status, EscrowStatus::Open);
    assert_eq!(acct.vault_balance, 50);
}

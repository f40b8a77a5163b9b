use custody_vault::custody::{
    deposit, deposit_spl, initialize, withdraw, withdraw_spl, Deposit, DepositSPL, Initialize,
    Withdraw, WithdrawSPL,
};
use custody_vault::derivation::Namespace;
use custody_vault::error::Error;
use custody_vault::identity::Identity;
use custody_vault::transfer::{AssetKind, Signing};

fn id(b: u8) -> Identity {
    Identity { bytes: [b; 32] }
}

fn fresh_vault(owner: Identity) -> custody_vault::custody::InitializedVault {
    let ctx = Initialize {
        owner,
        vault_state_addr: id(2),
        state_allocated: false,
        program: id(9),
    };
    initialize(&ctx).expect("initialization should succeed on a free address")
}

#[test]
fn initialize_records_owner_and_bumps() {
    let owner = id(1);
    let iv = fresh_vault(owner);
    assert_eq!(iv.vault_state.owner, owner);
    assert_eq!(iv.vault_state.score, 0);
    assert_eq!(iv.state_address, id(2));
    assert_ne!(iv.authority_address, iv.vault_address);
}

#[test]
fn initialize_refuses_allocated_address() {
    let ctx = Initialize {
        owner: id(1),
        vault_state_addr: id(2),
        state_allocated: true,
        program: id(9),
    };
    assert_eq!(initialize(&ctx).unwrap_err(), Error::AlreadyInitialized);
}

#[test]
fn native_deposit_then_withdraw_conserves_balance() {
    let owner = id(1);
    let iv = fresh_vault(owner);
    let mut dctx = Deposit {
        owner,
        vault_state_addr: iv.state_address,
        vault_state: iv.vault_state,
        vault_auth: iv.authority_address,
        vault: iv.vault_address,
        vault_balance: 0,
        program: id(9),
    };
    let ix = deposit(&mut dctx, 100).expect("owner deposit should succeed");
    assert_eq!(dctx.vault_balance, 100);
    assert_eq!(ix.from, owner);
    assert_eq!(ix.to, iv.vault_address);
    assert_eq!(ix.amount, 100);
    assert_eq!(ix.asset, AssetKind::Native);
    assert!(matches!(ix.signing, Signing::Caller(c) if c == owner));

    let mut wctx = Withdraw {
        owner,
        vault_state_addr: dctx.vault_state_addr,
        vault_state: dctx.vault_state,
        vault_auth: dctx.vault_auth,
        vault: dctx.vault,
        vault_balance: dctx.vault_balance,
        program: dctx.program,
    };
    assert_eq!(withdraw(&mut wctx, 150).unwrap_err(), Error::InsufficientFunds);
    assert_eq!(wctx.vault_balance, 100);

    let out = withdraw(&mut wctx, 100).expect("covered withdrawal should succeed");
    assert_eq!(wctx.vault_balance, 0);
    assert_eq!(out.from, iv.vault_address);
    assert_eq!(out.to, owner);
    assert_eq!(out.amount, 100);
    match out.signing {
        Signing::Authority(da) => {
            assert_eq!(da.namespace(), Namespace::Vault);
            assert_eq!(da.parent_bytes(), iv.authority_address.bytes.to_vec());
            assert_eq!(da.bump(), iv.vault_state.vault_bump);
        }
        Signing::Caller(_) => panic!("withdrawal must be signed by the derived authority"),
    }
}

#[test]
fn balance_tracks_the_net_of_applied_operations() {
    let owner = id(1);
    let iv = fresh_vault(owner);
    let mut wctx = Withdraw {
        owner,
        vault_state_addr: iv.state_address,
        vault_state: iv.vault_state,
        vault_auth: iv.authority_address,
        vault: iv.vault_address,
        vault_balance: 0,
        program: id(9),
    };
    let mut dctx = Deposit {
        owner,
        vault_state_addr: iv.state_address,
        vault_state: iv.vault_state,
        vault_auth: iv.authority_address,
        vault: iv.vault_address,
        vault_balance: 0,
        program: id(9),
    };
    deposit(&mut dctx, 30).unwrap();
    deposit(&mut dctx, 70).unwrap();
    wctx.vault_balance = dctx.vault_balance;
    wctx.vault_state = dctx.vault_state;
    withdraw(&mut wctx, 40).unwrap();
    assert_eq!(withdraw(&mut wctx, 61).unwrap_err(), Error::InsufficientFunds);
    assert_eq!(wctx.vault_balance, 30 + 70 - 40);

    let zero = withdraw(&mut wctx, 0).expect("a zero withdrawal is covered by any balance");
    assert_eq!(zero.amount, 0);
    assert_eq!(wctx.vault_balance, 60);
}

#[test]
fn withdraw_by_stranger_fails_and_changes_nothing() {
    let owner = id(1);
    let intruder = id(7);
    let iv = fresh_vault(owner);
    let mut wctx = Withdraw {
        owner: intruder,
        vault_state_addr: iv.state_address,
        vault_state: iv.vault_state,
        vault_auth: iv.authority_address,
        vault: iv.vault_address,
        vault_balance: 100,
        program: id(9),
    };
    assert_eq!(
        withdraw(&mut wctx, 10).unwrap_err(),
        Error::InsufficientAuthorization
    );
    assert_eq!(wctx.vault_balance, 100);
    assert_eq!(wctx.vault_state, iv.vault_state);
}

#[test]
fn tampered_vault_address_is_caught() {
    let owner = id(1);
    let iv = fresh_vault(owner);
    let mut dctx = Deposit {
        owner,
        vault_state_addr: iv.state_address,
        vault_state: iv.vault_state,
        vault_auth: iv.authority_address,
        vault: id(42),
        vault_balance: 0,
        program: id(9),
    };
    assert_eq!(deposit(&mut dctx, 5).unwrap_err(), Error::DerivationMismatch);
    assert_eq!(dctx.vault_balance, 0);
}

#[test]
fn status_marker_records_furthest_operation() {
    let owner = id(1);
    let iv = fresh_vault(owner);
    let mut dctx = Deposit {
        owner,
        vault_state_addr: iv.state_address,
        vault_state: iv.vault_state,
        vault_auth: iv.authority_address,
        vault: iv.vault_address,
        vault_balance: 0,
        program: id(9),
    };
    deposit(&mut dctx, 10).unwrap();
    assert_eq!(dctx.vault_state.score, 1);
    let mut wctx = Withdraw {
        owner,
        vault_state_addr: dctx.vault_state_addr,
        vault_state: dctx.vault_state,
        vault_auth: dctx.vault_auth,
        vault: dctx.vault,
        vault_balance: dctx.vault_balance,
        program: dctx.program,
    };
    withdraw(&mut wctx, 5).unwrap();
    assert_eq!(wctx.vault_state.score, 2);
    let mut dctx2 = Deposit {
        owner,
        vault_state_addr: wctx.vault_state_addr,
        vault_state: wctx.vault_state,
        vault_auth: wctx.vault_auth,
        vault: wctx.vault,
        vault_balance: wctx.vault_balance,
        program: wctx.program,
    };
    deposit(&mut dctx2, 1).unwrap();
    assert_eq!(dctx2.vault_state.score, 2);
}

#[test]
fn token_deposit_emits_owner_signed_token_leg() {
    let owner = id(1);
    let iv = fresh_vault(owner);
    let mut ctx = DepositSPL {
        owner,
        vault_state_addr: iv.state_address,
        vault_state: iv.vault_state,
        vault_auth: iv.authority_address,
        owner_ata: id(3),
        vault_ata: id(4),
        token_mint: id(5),
        program: id(9),
    };
    let ix = deposit_spl(&mut ctx, 25).expect("owner token deposit should succeed");
    assert_eq!(ix.from, id(3));
    assert_eq!(ix.to, id(4));
    assert_eq!(ix.amount, 25);
    assert_eq!(ix.asset, AssetKind::Token(id(5)));
    assert!(matches!(ix.signing, Signing::Caller(c) if c == owner));
    assert_eq!(ctx.vault_state.score, 3);
}

#[test]
fn token_withdraw_signs_under_auth_namespace() {
    let owner = id(1);
    let iv = fresh_vault(owner);
    let mut ctx = WithdrawSPL {
        owner,
        vault_state_addr: iv.state_address,
        vault_state: iv.vault_state,
        vault_auth: iv.authority_address,
        owner_ata: id(3),
        vault_ata: id(4),
        token_mint: id(5),
        program: id(9),
    };
    let ix = withdraw_spl(&mut ctx, 25).expect("owner token withdrawal should succeed");
    assert_eq!(ix.from, id(4));
    assert_eq!(ix.to, id(3));
    assert_eq!(ix.asset, AssetKind::Token(id(5)));
    match ix.signing {
        Signing::Authority(da) => {
            assert_eq!(da.namespace(), Namespace::Auth);
            assert_eq!(da.parent_bytes(), iv.state_address.bytes.to_vec());
            assert_eq!(da.bump(), iv.vault_state.auth_bump);
        }
        Signing::Caller(_) => panic!("token withdrawal must be signed by the derived authority"),
    }
    assert_eq!(ctx.vault_state.score, 4);
}

#[test]
fn token_withdraw_by_stranger_fails() {
    let owner = id(1);
    let iv = fresh_vault(owner);
    let mut ctx = WithdrawSPL {
        owner: id(7),
        vault_state_addr: iv.state_address,
        vault_state: iv.vault_state,
        vault_auth: iv.authority_address,
        owner_ata: id(3),
        vault_ata: id(4),
        token_mint: id(5),
        program: id(9),
    };
    assert_eq!(
        withdraw_spl(&mut ctx, 25).unwrap_err(),
        Error::InsufficientAuthorization
    );
    assert_eq!(ctx.vault_state.score, 0);
}

use custody_vault::derivation::{derive_from_identity, Namespace};
use custody_vault::error::Error;
use custody_vault::identity::Identity;
use custody_vault::transfer::{AssetKind, Signing};
use custody_vault::vault::{
    deposit, initialize, spl_deposit, spl_withdraw, withdraw, Initialize, Payment, SPLDeposit,
    SPLWithdraw, VaultState,
};

fn id(b: u8) -> Identity {
    Identity { bytes: [b; 32] }
}

#[test]
fn derived_record_flow_conserves_balance() {
    let owner = id(1);
    let program = id(9);
    let iv = initialize(&Initialize { owner, state_allocated: false, program })
        .expect("initialization should succeed on a free address");
    let mut ctx = Payment {
        owner,
        state_addr: iv.state_address,
        state: iv.state,
        vault: iv.vault_address,
        vault_balance: 0,
        program,
    };
    deposit(&mut ctx, 100).expect("owner deposit should succeed");
    assert_eq!(ctx.vault_balance, 100);
    assert_eq!(withdraw(&mut ctx, 150).unwrap_err(), Error::InsufficientFunds);
    assert_eq!(ctx.vault_balance, 100);
    let ix = withdraw(&mut ctx, 100).expect("covered withdrawal should succeed");
    assert_eq!(ctx.vault_balance, 0);
    assert_eq!(ix.to, owner);
    assert_eq!(ix.asset, AssetKind::Native);
    match ix.signing {
        Signing::Authority(da) => {
            assert_eq!(da.namespace(), Namespace::Vault);
            assert_eq!(da.parent_bytes(), iv.state_address.bytes.to_vec());
            assert_eq!(da.bump(), iv.state.vault_bump);
        }
        Signing::Caller(_) => panic!("withdrawal must be signed by the derived authority"),
    }
}

#[test]
fn stranger_fails_the_derivation_gate() {
    let owner = id(1);
    let program = id(9);
    let iv = initialize(&Initialize { owner, state_allocated: false, program }).unwrap();
    let mut ctx = Payment {
        owner: id(7),
        state_addr: iv.state_address,
        state: iv.state,
        vault: iv.vault_address,
        vault_balance: 50,
        program,
    };
    assert_eq!(withdraw(&mut ctx, 10).unwrap_err(), Error::DerivationMismatch);
    assert_eq!(ctx.vault_balance, 50);
}

#[test]
fn reinitialization_fails() {
    let ctx = Initialize { owner: id(1), state_allocated: true, program: id(9) };
    assert_eq!(initialize(&ctx).unwrap_err(), Error::AlreadyInitialized);
}

#[test]
fn token_deposit_checks_its_own_derivations() {
    let owner = id(1);
    let program = id(9);
    let (state_addr, state_bump) =
        derive_from_identity(Namespace::State, &owner, &program).unwrap();
    let (auth, auth_bump) = derive_from_identity(Namespace::Auth, &owner, &program).unwrap();
    let (vault_ata, _) = derive_from_identity(Namespace::SplVault, &state_addr, &program).unwrap();
    let state = VaultState { auth_bump, vault_bump: 0, state_bump };
    let ctx = SPLDeposit {
        owner,
        owner_ata: id(3),
        token_mint: id(5),
        auth,
        vault_ata,
        state_addr,
        state,
        program,
    };
    let ix = spl_deposit(&ctx, 40).expect("token deposit should succeed");
    assert_eq!(ix.from, id(3));
    assert_eq!(ix.to, vault_ata);
    assert_eq!(ix.asset, AssetKind::Token(id(5)));
    assert!(matches!(ix.signing, Signing::Caller(c) if c == owner));

    let tampered = SPLDeposit { vault_ata: id(42), ..ctx };
    assert_eq!(spl_deposit(&tampered, 40).unwrap_err(), Error::DerivationMismatch);
}

#[test]
fn token_withdraw_signs_under_auth_from_record() {
    let owner = id(1);
    let program = id(9);
    let (state_addr, state_bump) =
        derive_from_identity(Namespace::State, &owner, &program).unwrap();
    let (auth, auth_bump) = derive_from_identity(Namespace::Auth, &state_addr, &program).unwrap();
    let (vault_ata, _) = derive_from_identity(Namespace::SplVault, &state_addr, &program).unwrap();
    let state = VaultState { auth_bump, vault_bump: 0, state_bump };
    let ctx = SPLWithdraw {
        owner,
        owner_ata: id(3),
        token_mint: id(5),
        auth,
        vault_ata,
        state_addr,
        state,
        program,
    };
    let ix = spl_withdraw(&ctx, 40).expect("token withdrawal should succeed");
    assert_eq!(ix.from, vault_ata);
    assert_eq!(ix.to, id(3));
    match ix.signing {
        Signing::Authority(da) => {
            assert_eq!(da.namespace(), Namespace::Auth);
            assert_eq!(da.parent_bytes(), state_addr.bytes.to_vec());
            assert_eq!(da.bump(), auth_bump);
        }
        Signing::Caller(_) => panic!("token withdrawal must be signed by the derived authority"),
    }
}

use vstd::prelude::*;

use crate::custody::{apply_op, VaultOp};
use crate::derivation::{check_derived, derive_from_identity, pda_of, tag_bytes, Namespace};
use crate::error::Error;
use crate::identity::Identity;
use crate::transfer::{AssetKind, DerivedAuthority, Signing, TransferInstruction};

verus! {

/// The control block of the fully address-derived vault variant: here the
/// record itself lives at an address derived from its owner, so even the
/// record's location proves who it belongs to, and no owner field is
/// stored.
#[derive(Clone, Copy, Debug, PartialEq, Eq)]
pub struct VaultState {
    pub auth_bump: u8,
    pub vault_bump: u8,
    pub state_bump: u8,
}

impl VaultState {
    /// The record's persisted size, declared up front at allocation time:
    /// a tag word and the three bumps.
    pub const LEN: usize = 8 + 3 * 1;
}

/// The record's own address derives under "state" from the owner.
pub open spec fn derived_state(owner: Seq<u8>, program: Seq<u8>) -> Option<(Seq<u8>, u8)> {
    pda_of(tag_bytes(Namespace::State), seq![owner], program)
}

/// The signing authority derives under "auth" from the record's address.
pub open spec fn derived_auth(state_addr: Seq<u8>, program: Seq<u8>) -> Option<(Seq<u8>, u8)> {
    pda_of(tag_bytes(Namespace::Auth), seq![state_addr], program)
}

/// The holding vault derives under "vault" from the record's address.
pub open spec fn derived_vault(state_addr: Seq<u8>, program: Seq<u8>) -> Option<(Seq<u8>, u8)> {
    pda_of(tag_bytes(Namespace::Vault), seq![state_addr], program)
}

/// The token holding vault derives under "spl_vault" from the record's
/// address; its bump is re-discovered on each use rather than stored.
pub open spec fn derived_spl_vault(state_addr: Seq<u8>, program: Seq<u8>) -> Option<(Seq<u8>, u8)> {
    pda_of(tag_bytes(Namespace::SplVault), seq![state_addr], program)
}

/// The full chain discovered at initialization: the record's address from
/// the owner, then the authority and the vault from the record's address.
pub open spec fn init_derivation(owner: Seq<u8>, program: Seq<u8>) -> Option<
    ((Seq<u8>, u8), (Seq<u8>, u8), (Seq<u8>, u8)),
> {
    match derived_state(owner, program) {
        Some((state, state_bump)) => match derived_auth(state, program) {
            Some((auth, auth_bump)) => match derived_vault(state, program) {
                Some((vault, vault_bump)) => Some(
                    ((state, state_bump), (auth, auth_bump), (vault, vault_bump)),
                ),
                None => None,
            },
            None => None,
        },
        None => None,
    }
}

/// The account bundle for creating the record: the proven caller pays for
/// and owns the record, whose address is derived, not chosen.
#[derive(Clone, Copy, Debug)]
pub struct Initialize {
    pub owner: Identity,
    pub state_allocated: bool,
    pub program: Identity,
}

/// What a successful initialization hands back.
#[derive(Clone, Copy, Debug)]
pub struct InitializedVault {
    pub state: VaultState,
    pub state_address: Identity,
    pub authority_address: Identity,
    pub vault_address: Identity,
}

/// Create the record at its derived address, recording the three bumps
/// discovered along the chain. Re-initialization of an allocated address
/// always fails, so the bumps can never be overwritten.
pub fn initialize(ctx: &Initialize) -> (r: Result<InitializedVault, Error>)
    ensures
        r is Ok <==> (!ctx.state_allocated && init_derivation(ctx.owner@, ctx.program@) is Some),
        (match r {
            Ok(iv) => {
                &&& init_derivation(ctx.owner@, ctx.program@) == Some(
                    (
                        (iv.state_address@, iv.state.state_bump),
                        (iv.authority_address@, iv.state.auth_bump),
                        (iv.vault_address@, iv.state.vault_bump),
                    ),
                )
            },
            Err(e) => if ctx.state_allocated {
                e == Error::AlreadyInitialized
            } else {
                e == Error::DerivationMismatch
            },
        }),
{
    if ctx.state_allocated {
        return Err(Error::AlreadyInitialized);
    }
    match derive_from_identity(Namespace::State, &ctx.owner, &ctx.program) {
        None => Err(Error::DerivationMismatch),
        Some((state_addr, state_bump)) => {
            match derive_from_identity(Namespace::Auth, &state_addr, &ctx.program) {
                None => Err(Error::DerivationMismatch),
                Some((auth_addr, auth_bump)) => {
                    match derive_from_identity(Namespace::Vault, &state_addr, &ctx.program) {
                        None => Err(Error::DerivationMismatch),
                        Some((vault_addr, vault_bump)) => Ok(
                            InitializedVault {
                                state: VaultState { auth_bump, vault_bump, state_bump },
                                state_address: state_addr,
                                authority_address: auth_addr,
                                vault_address: vault_addr,
                            },
                        ),
                    }
                },
            }
        },
    }
}

/// The account bundle shared by a native deposit and a native withdrawal:
/// the proven caller, the record with its address, the vault address and
/// its balance.
#[derive(Clone, Copy, Debug)]
pub struct Payment {
    pub owner: Identity,
    pub state_addr: Identity,
    pub state: VaultState,
    pub vault: Identity,
    pub vault_balance: u64,
    pub program: Identity,
}

/// The supplied addresses match their re-derivation. The record's own
/// address derives from the caller, so this check is the ownership gate:
/// no identity but the one the record was derived from can pass it.
pub open spec fn payment_derivation_ok(ctx: Payment) -> bool {
    &&& derived_state(ctx.owner@, ctx.program@) == Some((ctx.state_addr@, ctx.state.state_bump))
    &&& derived_vault(ctx.state_addr@, ctx.program@) == Some((ctx.vault@, ctx.state.vault_bump))
}

fn check_payment_derivations(ctx: &Payment) -> (r: bool)
    ensures
        r == payment_derivation_ok(*ctx),
{
    if !check_derived(
        Namespace::State,
        &ctx.owner,
        &ctx.program,
        &ctx.state_addr,
        ctx.state.state_bump,
    ) {
        return false;
    }
    check_derived(Namespace::Vault, &ctx.state_addr, &ctx.program, &ctx.vault, ctx.state.vault_bump)
}

/// Move `amount` from the owner into the vault, owner-signed. The vault
/// balance grows by exactly `amount` and nothing else changes.
pub fn deposit(ctx: &mut Payment, amount: u64) -> (r: Result<TransferInstruction, Error>)
    requires
        1 <= amount,
        old(ctx).vault_balance + amount <= u64::MAX,
    ensures
        r is Ok <==> payment_derivation_ok(*old(ctx)),
        *final(ctx) == (Payment { vault_balance: final(ctx).vault_balance, ..*old(ctx) }),
        payment_derivation_ok(*old(ctx)) ==> final(ctx).vault_balance == apply_op(
            old(ctx).vault_balance,
            VaultOp::Deposit(amount),
        ),
        (match r {
            Ok(ix) => {
                &&& final(ctx).vault_balance == old(ctx).vault_balance + amount
                &&& ix.from == old(ctx).owner
                &&& ix.to == old(ctx).vault
                &&& ix.amount == amount
                &&& ix.asset is Native
                &&& ix.signing == Signing::Caller(old(ctx).owner)
            },
            Err(e) => {
                &&& *final(ctx) == *old(ctx)
                &&& e == Error::DerivationMismatch
            },
        }),
{
    if !check_payment_derivations(ctx) {
        return Err(Error::DerivationMismatch);
    }
    let ix = TransferInstruction {
        from: ctx.owner,
        to: ctx.vault,
        amount,
        asset: AssetKind::Native,
        signing: Signing::Caller(ctx.owner),
    };
    ctx.vault_balance = ctx.vault_balance + amount;
    Ok(ix)
}

/// Move `amount` from the vault back to the owner, signed by the derived
/// "vault" authority over the record's address. A request beyond the
/// balance is a first-class error and changes nothing.
pub fn withdraw(ctx: &mut Payment, amount: u64) -> (r: Result<TransferInstruction, Error>)
    ensures
        r is Ok <==> (payment_derivation_ok(*old(ctx)) && amount <= old(ctx).vault_balance),
        *final(ctx) == (Payment { vault_balance: final(ctx).vault_balance, ..*old(ctx) }),
        payment_derivation_ok(*old(ctx)) ==> final(ctx).vault_balance == apply_op(
            old(ctx).vault_balance,
            VaultOp::Withdraw(amount),
        ),
        (match r {
            Ok(ix) => {
                &&& final(ctx).vault_balance == old(ctx).vault_balance - amount
                &&& ix.from == old(ctx).vault
                &&& ix.to == old(ctx).owner
                &&& ix.amount == amount
                &&& ix.asset is Native
                &&& (ix.signing matches Signing::Authority(da) && da@ == (
                    Namespace::Vault,
                    old(ctx).state_addr@,
                    old(ctx).state.vault_bump,
                ))
            },
            Err(e) => {
                &&& *final(ctx) == *old(ctx)
                &&& e == (if !payment_derivation_ok(*old(ctx)) {
                    Error::DerivationMismatch
                } else {
                    Error::InsufficientFunds
                })
            },
        }),
{
    if !check_payment_derivations(ctx) {
        return Err(Error::DerivationMismatch);
    }
    if ctx.vault_balance < amount {
        return Err(Error::InsufficientFunds);
    }
    let authority = DerivedAuthority::make(
        Namespace::Vault,
        &ctx.state_addr,
        ctx.state.vault_bump,
    );
    let ix = TransferInstruction {
        from: ctx.vault,
        to: ctx.owner,
        amount,
        asset: AssetKind::Native,
        signing: Signing::Authority(authority),
    };
    ctx.vault_balance = ctx.vault_balance - amount;
    Ok(ix)
}

/// The account bundle of a token deposit into the derived token vault.
#[derive(Clone, Copy, Debug)]
pub struct SPLDeposit {
    pub owner: Identity,
    pub owner_ata: Identity,
    pub token_mint: Identity,
    pub auth: Identity,
    pub vault_ata: Identity,
    pub state_addr: Identity,
    pub state: VaultState,
    pub program: Identity,
}

/// The supplied addresses of a token deposit match their re-derivation.
/// In this variant the deposit-side authority derives from the owner,
/// while the withdrawal-side authority derives from the record's
/// address; the token vault's bump is re-discovered each time.
pub open spec fn spl_deposit_derivation_ok(ctx: SPLDeposit) -> bool {
    &&& derived_state(ctx.owner@, ctx.program@) == Some((ctx.state_addr@, ctx.state.state_bump))
    &&& pda_of(tag_bytes(Namespace::Auth), seq![ctx.owner@], ctx.program@) == Some(
        (ctx.auth@, ctx.state.auth_bump),
    )
    &&& (match derived_spl_vault(ctx.state_addr@, ctx.program@) {
        Some((addr, _)) => addr == ctx.vault_ata@,
        None => false,
    })
}

/// Emit the token leg moving `amount` from the owner's token account into
/// the derived token vault, owner-signed. The token ledger applies or
/// rejects the leg outside the engine, so nothing here changes state.
pub fn spl_deposit(ctx: &SPLDeposit, amount: u64) -> (r: Result<TransferInstruction, Error>)
    requires
        1 <= amount,
    ensures
        r is Ok <==> spl_deposit_derivation_ok(*ctx),
        (match r {
            Ok(ix) => {
                &&& ix.from == ctx.owner_ata
                &&& ix.to == ctx.vault_ata
                &&& ix.amount == amount
                &&& ix.asset == AssetKind::Token(ctx.token_mint)
                &&& ix.signing == Signing::Caller(ctx.owner)
            },
            Err(e) => e == Error::DerivationMismatch,
        }),
{
    if !check_derived(
        Namespace::State,
        &ctx.owner,
        &ctx.program,
        &ctx.state_addr,
        ctx.state.state_bump,
    ) {
        return Err(Error::DerivationMismatch);
    }
    if !check_derived(Namespace::Auth, &ctx.owner, &ctx.program, &ctx.auth, ctx.state.auth_bump) {
        return Err(Error::DerivationMismatch);
    }
    match derive_from_identity(Namespace::SplVault, &ctx.state_addr, &ctx.program) {
        None => Err(Error::DerivationMismatch),
        Some((addr, _bump)) => {
            if !addr.equals(&ctx.vault_ata) {
                return Err(Error::DerivationMismatch);
            }
            Ok(
                TransferInstruction {
                    from: ctx.owner_ata,
                    to: ctx.vault_ata,
                    amount,
                    asset: AssetKind::Token(ctx.token_mint),
                    signing: Signing::Caller(ctx.owner),
                },
            )
        },
    }
}

/// The account bundle of a token withdrawal from the derived token vault.
#[derive(Clone, Copy, Debug)]
pub struct SPLWithdraw {
    pub owner: Identity,
    pub owner_ata: Identity,
    pub token_mint: Identity,
    pub auth: Identity,
    pub vault_ata: Identity,
    pub state_addr: Identity,
    pub state: VaultState,
    pub program: Identity,
}

/// The supplied addresses of a token withdrawal match their
/// re-derivation; here the authority derives from the record's address.
pub open spec fn spl_withdraw_derivation_ok(ctx: SPLWithdraw) -> bool {
    &&& derived_state(ctx.owner@, ctx.program@) == Some((ctx.state_addr@, ctx.state.state_bump))
    &&& derived_auth(ctx.state_addr@, ctx.program@) == Some((ctx.auth@, ctx.state.auth_bump))
    &&& (match derived_spl_vault(ctx.state_addr@, ctx.program@) {
        Some((addr, _)) => addr == ctx.vault_ata@,
        None => false,
    })
}

/// Emit the token leg moving `amount` from the derived token vault back
/// to the owner's token account, signed by the derived "auth" authority:
/// the token side signs under "auth" while the native side signs under
/// "vault", one derived identity per asset class.
pub fn spl_withdraw(ctx: &SPLWithdraw, amount: u64) -> (r: Result<TransferInstruction, Error>)
    ensures
        r is Ok <==> spl_withdraw_derivation_ok(*ctx),
        (match r {
            Ok(ix) => {
                &&& ix.from == ctx.vault_ata
                &&& ix.to == ctx.owner_ata
                &&& ix.amount == amount
                &&& ix.asset == AssetKind::Token(ctx.token_mint)
                &&& (ix.signing matches Signing::Authority(da) && da@ == (
                    Namespace::Auth,
                    ctx.state_addr@,
                    ctx.state.auth_bump,
                ))
            },
            Err(e) => e == Error::DerivationMismatch,
        }),
{
    if !check_derived(
        Namespace::State,
        &ctx.owner,
        &ctx.program,
        &ctx.state_addr,
        ctx.state.state_bump,
    ) {
        return Err(Error::DerivationMismatch);
    }
    if !check_derived(
        Namespace::Auth,
        &ctx.state_addr,
        &ctx.program,
        &ctx.auth,
        ctx.state.auth_bump,
    ) {
        return Err(Error::DerivationMismatch);
    }
    match derive_from_identity(Namespace::SplVault, &ctx.state_addr, &ctx.program) {
        None => Err(Error::DerivationMismatch),
        Some((addr, _bump)) => {
            if !addr.equals(&ctx.vault_ata) {
                return Err(Error::DerivationMismatch);
            }
            let authority = DerivedAuthority::make(
                Namespace::Auth,
                &ctx.state_addr,
                ctx.state.auth_bump,
            );
            Ok(
                TransferInstruction {
                    from: ctx.vault_ata,
                    to: ctx.owner_ata,
                    amount,
                    asset: AssetKind::Token(ctx.token_mint),
                    signing: Signing::Authority(authority),
                },
            )
        },
    }
}

} // verus!

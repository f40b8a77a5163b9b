use vstd::prelude::*;

use crate::derivation::{check_derived, derive_from_identity, pda_of, tag_bytes, Namespace};
use crate::error::Error;
use crate::identity::Identity;
use crate::transfer::{AssetKind, DerivedAuthority, Signing, TransferInstruction};

verus! {

/// The persisted control block of one custody relationship: the sole
/// identity authorized to withdraw, the disambiguation bumps fixing the
/// record's derived addresses, and a status marker that records the
/// furthest operation completed so far.
#[derive(Clone, Copy, Debug, PartialEq, Eq)]
pub struct VaultState {
    pub owner: Identity,
    pub auth_bump: u8,
    pub vault_bump: u8,
    pub score: u8,
}

impl VaultState {
    /// The record's persisted size, declared up front at allocation time:
    /// a tag word, the owner, and the three single-byte markers.
    pub const LEN: usize = 8 + 32 + 1 + 1 + 1;
}

/// The status marker after an operation of the given rank succeeds: it
/// only ever advances, recording the furthest operation completed.
pub open spec fn advanced(score: u8, rank: u8) -> u8 {
    if rank > score {
        rank
    } else {
        score
    }
}

fn advance_score(score: u8, rank: u8) -> (r: u8)
    ensures
        r == advanced(score, rank),
{
    if rank > score {
        rank
    } else {
        score
    }
}

/// The authority address of a record derives under "auth" from the
/// address where the record itself lives.
pub open spec fn derived_auth(state_addr: Seq<u8>, program: Seq<u8>) -> Option<(Seq<u8>, u8)> {
    pda_of(tag_bytes(Namespace::Auth), seq![state_addr], program)
}

/// The holding vault address derives under "vault" from the authority
/// address, so the two families can never coincide.
pub open spec fn derived_vault(auth_addr: Seq<u8>, program: Seq<u8>) -> Option<(Seq<u8>, u8)> {
    pda_of(tag_bytes(Namespace::Vault), seq![auth_addr], program)
}

/// The full derivation chain performed at initialization: the authority
/// from the record's address, then the vault from the authority.
pub open spec fn init_derivation(state_addr: Seq<u8>, program: Seq<u8>) -> Option<
    ((Seq<u8>, u8), (Seq<u8>, u8)),
> {
    match derived_auth(state_addr, program) {
        Some((auth, auth_bump)) => match derived_vault(auth, program) {
            Some((vault, vault_bump)) => Some(((auth, auth_bump), (vault, vault_bump))),
            None => None,
        },
        None => None,
    }
}

/// A supplied authority address, vault address and the record's stored
/// bumps match what the derivation engine re-computes for them.
pub open spec fn vault_derivations_ok(
    state_addr: Seq<u8>,
    auth: Seq<u8>,
    auth_bump: u8,
    vault: Seq<u8>,
    vault_bump: u8,
    program: Seq<u8>,
) -> bool {
    &&& derived_auth(state_addr, program) == Some((auth, auth_bump))
    &&& derived_vault(auth, program) == Some((vault, vault_bump))
}

fn check_vault_derivations(
    state_addr: &Identity,
    auth: &Identity,
    auth_bump: u8,
    vault: &Identity,
    vault_bump: u8,
    program: &Identity,
) -> (r: bool)
    ensures
        r == vault_derivations_ok(state_addr@, auth@, auth_bump, vault@, vault_bump, program@),
{
    if !check_derived(Namespace::Auth, state_addr, program, auth, auth_bump) {
        return false;
    }
    check_derived(Namespace::Vault, auth, program, vault, vault_bump)
}

/// The account bundle for creating a vault record: the proven caller (the
/// future owner, who also pays for the record's storage), the address the
/// record will live at, and whether that address is already allocated.
#[derive(Clone, Copy, Debug)]
pub struct Initialize {
    pub owner: Identity,
    pub vault_state_addr: Identity,
    pub state_allocated: bool,
    pub program: Identity,
}

/// What a successful initialization hands back: the fresh record and the
/// three addresses the caller will use from now on.
#[derive(Clone, Copy, Debug)]
pub struct InitializedVault {
    pub vault_state: VaultState,
    pub state_address: Identity,
    pub authority_address: Identity,
    pub vault_address: Identity,
}

/// Create the vault record for `ctx.owner`, discovering and recording the
/// bumps of its derived addresses. Re-initialization of an allocated
/// address always fails, so a record's bumps can never be overwritten.
pub fn initialize(ctx: &Initialize) -> (r: Result<InitializedVault, Error>)
    ensures
        r is Ok <==> (!ctx.state_allocated && init_derivation(ctx.vault_state_addr@, ctx.program@)
            is Some),
        (match r {
            Ok(iv) => {
                &&& init_derivation(ctx.vault_state_addr@, ctx.program@) == Some(
                    (
                        (iv.authority_address@, iv.vault_state.auth_bump),
                        (iv.vault_address@, iv.vault_state.vault_bump),
                    ),
                )
                &&& iv.vault_state.owner == ctx.owner
                &&& iv.vault_state.score == 0
                &&& iv.state_address == ctx.vault_state_addr
            },
            Err(e) => if ctx.state_allocated {
                e == Error::AlreadyInitialized
            } else {
                e == Error::DerivationMismatch
            },
        }),
{
    if ctx.state_allocated {
        return Err(Error::AlreadyInitialized);
    }
    match derive_from_identity(Namespace::Auth, &ctx.vault_state_addr, &ctx.program) {
        None => Err(Error::DerivationMismatch),
        Some((auth_addr, auth_bump)) => {
            match derive_from_identity(Namespace::Vault, &auth_addr, &ctx.program) {
                None => Err(Error::DerivationMismatch),
                Some((vault_addr, vault_bump)) => Ok(
                    InitializedVault {
                        vault_state: VaultState {
                            owner: ctx.owner,
                            auth_bump,
                            vault_bump,
                            score: 0,
                        },
                        state_address: ctx.vault_state_addr,
                        authority_address: auth_addr,
                        vault_address: vault_addr,
                    },
                ),
            }
        },
    }
}

/// One balance-changing step of the custody engine, for reasoning about
/// whole operation histories.
pub enum VaultOp {
    Deposit(u64),
    Withdraw(u64),
}

/// Whether a step applies to a vault holding `bal`: a deposit applies when
/// it cannot overflow the balance, a withdrawal only when the balance
/// covers it.
pub open spec fn op_applies(bal: u64, op: VaultOp) -> bool {
    match op {
        VaultOp::Deposit(a) => bal + a <= u64::MAX,
        VaultOp::Withdraw(a) => a <= bal,
    }
}

/// The vault balance after one step: unchanged when the step does not
/// apply.
pub open spec fn apply_op(bal: u64, op: VaultOp) -> u64 {
    match op {
        VaultOp::Deposit(a) => if bal + a <= u64::MAX {
            (bal + a) as u64
        } else {
            bal
        },
        VaultOp::Withdraw(a) => if a <= bal {
            (bal - a) as u64
        } else {
            bal
        },
    }
}

/// The vault balance after a whole history of steps.
pub open spec fn run_ops(bal: u64, ops: Seq<VaultOp>) -> u64
    decreases ops.len(),
{
    if ops.len() == 0 {
        bal
    } else {
        run_ops(apply_op(bal, ops[0]), ops.drop_first())
    }
}

/// The sum of applied deposits minus the sum of applied withdrawals over a
/// history starting from balance `bal`.
pub open spec fn net_applied(bal: u64, ops: Seq<VaultOp>) -> int
    decreases ops.len(),
{
    if ops.len() == 0 {
        0int
    } else {
        (match ops[0] {
            VaultOp::Deposit(a) => if op_applies(bal, ops[0]) {
                a as int
            } else {
                0int
            },
            VaultOp::Withdraw(a) => if op_applies(bal, ops[0]) {
                -(a as int)
            } else {
                0int
            },
        }) + net_applied(apply_op(bal, ops[0]), ops.drop_first())
    }
}

/// Conservation: over any history of deposits and withdrawals, the sum of
/// applied deposits minus the sum of applied withdrawals equals the change
/// in the vault balance — and by `op_applies`, a withdrawal only ever
/// applies when the balance covers it.
pub proof fn lemma_conservation(bal: u64, ops: Seq<VaultOp>)
    ensures
        run_ops(bal, ops) == bal + net_applied(bal, ops),
    decreases ops.len(),
{
    if ops.len() != 0 {
        lemma_conservation(apply_op(bal, ops[0]), ops.drop_first());
    }
}

/// The account bundle of a native-currency deposit: the proven caller,
/// the record and its address, the supplied authority and vault
/// addresses, and the vault's current balance.
#[derive(Clone, Copy, Debug)]
pub struct Deposit {
    pub owner: Identity,
    pub vault_state_addr: Identity,
    pub vault_state: VaultState,
    pub vault_auth: Identity,
    pub vault: Identity,
    pub vault_balance: u64,
    pub program: Identity,
}

/// The proven caller is the record's owner.
pub open spec fn deposit_authorized(ctx: Deposit) -> bool {
    ctx.owner@ == ctx.vault_state.owner@
}

/// The supplied addresses of a deposit match their re-derivation.
pub open spec fn deposit_derivation_ok(ctx: Deposit) -> bool {
    vault_derivations_ok(
        ctx.vault_state_addr@,
        ctx.vault_auth@,
        ctx.vault_state.auth_bump,
        ctx.vault@,
        ctx.vault_state.vault_bump,
        ctx.program@,
    )
}

/// Move `amount` from the owner into the vault. The owner is the live
/// signer, so the emitted leg is caller-authorized; the vault balance
/// grows by exactly `amount` and nothing else changes but the status
/// marker.
pub fn deposit(ctx: &mut Deposit, amount: u64) -> (r: Result<TransferInstruction, Error>)
    requires
        1 <= amount,
        old(ctx).vault_balance + amount <= u64::MAX,
    ensures
        r is Ok <==> (deposit_derivation_ok(*old(ctx)) && deposit_authorized(*old(ctx))),
        *final(ctx) == (Deposit {
            vault_balance: final(ctx).vault_balance,
            vault_state: (VaultState {
                score: final(ctx).vault_state.score,
                ..old(ctx).vault_state
            }),
            ..*old(ctx)
        }),
        (deposit_derivation_ok(*old(ctx)) && deposit_authorized(*old(ctx)))
            ==> final(ctx).vault_balance == apply_op(
            old(ctx).vault_balance,
            VaultOp::Deposit(amount),
        ),
        (match r {
            Ok(ix) => {
                &&& final(ctx).vault_balance == old(ctx).vault_balance + amount
                &&& final(ctx).vault_state.score == advanced(old(ctx).vault_state.score, 1)
                &&& ix.from == old(ctx).owner
                &&& ix.to == old(ctx).vault
                &&& ix.amount == amount
                &&& ix.asset is Native
                &&& ix.signing == Signing::Caller(old(ctx).owner)
            },
            Err(e) => {
                &&& *final(ctx) == *old(ctx)
                &&& e == (if !deposit_derivation_ok(*old(ctx)) {
                    Error::DerivationMismatch
                } else {
                    Error::InsufficientAuthorization
                })
            },
        }),
{
    if !check_vault_derivations(
        &ctx.vault_state_addr,
        &ctx.vault_auth,
        ctx.vault_state.auth_bump,
        &ctx.vault,
        ctx.vault_state.vault_bump,
        &ctx.program,
    ) {
        return Err(Error::DerivationMismatch);
    }
    if !ctx.owner.equals(&ctx.vault_state.owner) {
        return Err(Error::InsufficientAuthorization);
    }
    let ix = TransferInstruction {
        from: ctx.owner,
        to: ctx.vault,
        amount,
        asset: AssetKind::Native,
        signing: Signing::Caller(ctx.owner),
    };
    ctx.vault_balance = ctx.vault_balance + amount;
    ctx.vault_state.score = advance_score(ctx.vault_state.score, 1);
    Ok(ix)
}

/// The account bundle of a native-currency withdrawal; the same accounts
/// as a deposit.
#[derive(Clone, Copy, Debug)]
pub struct Withdraw {
    pub owner: Identity,
    pub vault_state_addr: Identity,
    pub vault_state: VaultState,
    pub vault_auth: Identity,
    pub vault: Identity,
    pub vault_balance: u64,
    pub program: Identity,
}

/// The proven caller is the record's owner.
pub open spec fn withdraw_authorized(ctx: Withdraw) -> bool {
    ctx.owner@ == ctx.vault_state.owner@
}

/// The supplied addresses of a withdrawal match their re-derivation.
pub open spec fn withdraw_derivation_ok(ctx: Withdraw) -> bool {
    vault_derivations_ok(
        ctx.vault_state_addr@,
        ctx.vault_auth@,
        ctx.vault_state.auth_bump,
        ctx.vault@,
        ctx.vault_state.vault_bump,
        ctx.program@,
    )
}

/// Move `amount` from the vault back to the owner. Only the record's
/// owner may withdraw; a request beyond the balance is a first-class
/// error; the emitted leg is signed by the engine's derived "vault"
/// authority, not by the caller, and the balance shrinks by exactly
/// `amount`.
pub fn withdraw(ctx: &mut Withdraw, amount: u64) -> (r: Result<TransferInstruction, Error>)
    ensures
        r is Ok <==> (withdraw_derivation_ok(*old(ctx)) && withdraw_authorized(*old(ctx)) && amount
            <= old(ctx).vault_balance),
        *final(ctx) == (Withdraw {
            vault_balance: final(ctx).vault_balance,
            vault_state: (VaultState {
                score: final(ctx).vault_state.score,
                ..old(ctx).vault_state
            }),
            ..*old(ctx)
        }),
        (withdraw_derivation_ok(*old(ctx)) && withdraw_authorized(*old(ctx)))
            ==> final(ctx).vault_balance == apply_op(
            old(ctx).vault_balance,
            VaultOp::Withdraw(amount),
        ),
        (match r {
            Ok(ix) => {
                &&& final(ctx).vault_balance == old(ctx).vault_balance - amount
                &&& final(ctx).vault_state.score == advanced(old(ctx).vault_state.score, 2)
                &&& ix.from == old(ctx).vault
                &&& ix.to == old(ctx).owner
                &&& ix.amount == amount
                &&& ix.asset is Native
                &&& (ix.signing matches Signing::Authority(da) && da@ == (
                    Namespace::Vault,
                    old(ctx).vault_auth@,
                    old(ctx).vault_state.vault_bump,
                ))
            },
            Err(e) => {
                &&& *final(ctx) == *old(ctx)
                &&& e == (if !withdraw_derivation_ok(*old(ctx)) {
                    Error::DerivationMismatch
                } else if !withdraw_authorized(*old(ctx)) {
                    Error::InsufficientAuthorization
                } else {
                    Error::InsufficientFunds
                })
            },
        }),
{
    if !check_vault_derivations(
        &ctx.vault_state_addr,
        &ctx.vault_auth,
        ctx.vault_state.auth_bump,
        &ctx.vault,
        ctx.vault_state.vault_bump,
        &ctx.program,
    ) {
        return Err(Error::DerivationMismatch);
    }
    if !ctx.owner.equals(&ctx.vault_state.owner) {
        return Err(Error::InsufficientAuthorization);
    }
    if ctx.vault_balance < amount {
        return Err(Error::InsufficientFunds);
    }
    let authority = DerivedAuthority::make(
        Namespace::Vault,
        &ctx.vault_auth,
        ctx.vault_state.vault_bump,
    );
    let ix = TransferInstruction {
        from: ctx.vault,
        to: ctx.owner,
        amount,
        asset: AssetKind::Native,
        signing: Signing::Authority(authority),
    };
    ctx.vault_balance = ctx.vault_balance - amount;
    ctx.vault_state.score = advance_score(ctx.vault_state.score, 2);
    Ok(ix)
}

/// The account bundle of a token deposit: the caller's token account, the
/// vault's token account and the mint come along; the token ledger itself
/// stays outside the engine.
#[derive(Clone, Copy, Debug)]
pub struct DepositSPL {
    pub owner: Identity,
    pub vault_state_addr: Identity,
    pub vault_state: VaultState,
    pub vault_auth: Identity,
    pub owner_ata: Identity,
    pub vault_ata: Identity,
    pub token_mint: Identity,
    pub program: Identity,
}

/// The proven caller is the record's owner.
pub open spec fn deposit_spl_authorized(ctx: DepositSPL) -> bool {
    ctx.owner@ == ctx.vault_state.owner@
}

/// The supplied authority address of a token deposit matches its
/// re-derivation.
pub open spec fn deposit_spl_derivation_ok(ctx: DepositSPL) -> bool {
    derived_auth(ctx.vault_state_addr@, ctx.program@) == Some(
        (ctx.vault_auth@, ctx.vault_state.auth_bump),
    )
}

/// Emit the token leg moving `amount` from the owner's token account into
/// the vault's token account, owner-signed. Whether the token ledger
/// honours the leg is the external transfer collaborator's decision.
pub fn deposit_spl(ctx: &mut DepositSPL, amount: u64) -> (r: Result<TransferInstruction, Error>)
    requires
        1 <= amount,
    ensures
        r is Ok <==> (deposit_spl_derivation_ok(*old(ctx)) && deposit_spl_authorized(*old(ctx))),
        *final(ctx) == (DepositSPL {
            vault_state: (VaultState {
                score: final(ctx).vault_state.score,
                ..old(ctx).vault_state
            }),
            ..*old(ctx)
        }),
        (match r {
            Ok(ix) => {
                &&& final(ctx).vault_state.score == advanced(old(ctx).vault_state.score, 3)
                &&& ix.from == old(ctx).owner_ata
                &&& ix.to == old(ctx).vault_ata
                &&& ix.amount == amount
                &&& ix.asset == AssetKind::Token(old(ctx).token_mint)
                &&& ix.signing == Signing::Caller(old(ctx).owner)
            },
            Err(e) => {
                &&& *final(ctx) == *old(ctx)
                &&& e == (if !deposit_spl_derivation_ok(*old(ctx)) {
                    Error::DerivationMismatch
                } else {
                    Error::InsufficientAuthorization
                })
            },
        }),
{
    if !check_derived(
        Namespace::Auth,
        &ctx.vault_state_addr,
        &ctx.program,
        &ctx.vault_auth,
        ctx.vault_state.auth_bump,
    ) {
        return Err(Error::DerivationMismatch);
    }
    if !ctx.owner.equals(&ctx.vault_state.owner) {
        return Err(Error::InsufficientAuthorization);
    }
    let ix = TransferInstruction {
        from: ctx.owner_ata,
        to: ctx.vault_ata,
        amount,
        asset: AssetKind::Token(ctx.token_mint),
        signing: Signing::Caller(ctx.owner),
    };
    ctx.vault_state.score = advance_score(ctx.vault_state.score, 3);
    Ok(ix)
}

/// The account bundle of a token withdrawal; the same accounts as a token
/// deposit.
#[derive(Clone, Copy, Debug)]
pub struct WithdrawSPL {
    pub owner: Identity,
    pub vault_state_addr: Identity,
    pub vault_state: VaultState,
    pub vault_auth: Identity,
    pub owner_ata: Identity,
    pub vault_ata: Identity,
    pub token_mint: Identity,
    pub program: Identity,
}

/// The proven caller is the record's owner.
pub open spec fn withdraw_spl_authorized(ctx: WithdrawSPL) -> bool {
    ctx.owner@ == ctx.vault_state.owner@
}

/// The supplied authority address of a token withdrawal matches its
/// re-derivation.
pub open spec fn withdraw_spl_derivation_ok(ctx: WithdrawSPL) -> bool {
    derived_auth(ctx.vault_state_addr@, ctx.program@) == Some(
        (ctx.vault_auth@, ctx.vault_state.auth_bump),
    )
}

/// Emit the token leg moving `amount` from the vault's token account back
/// to the owner's, signed by the engine's derived "auth" authority: the
/// token side of custody signs under "auth" while the native side signs
/// under "vault", one derived identity per asset class.
pub fn withdraw_spl(ctx: &mut WithdrawSPL, amount: u64) -> (r: Result<TransferInstruction, Error>)
    ensures
        r is Ok <==> (withdraw_spl_derivation_ok(*old(ctx)) && withdraw_spl_authorized(*old(ctx))),
        *final(ctx) == (WithdrawSPL {
            vault_state: (VaultState {
                score: final(ctx).vault_state.score,
                ..old(ctx).vault_state
            }),
            ..*old(ctx)
        }),
        (match r {
            Ok(ix) => {
                &&& final(ctx).vault_state.score == advanced(old(ctx).vault_state.score, 4)
                &&& ix.from == old(ctx).vault_ata
                &&& ix.to == old(ctx).owner_ata
                &&& ix.amount == amount
                &&& ix.asset == AssetKind::Token(old(ctx).token_mint)
                &&& (ix.signing matches Signing::Authority(da) && da@ == (
                    Namespace::Auth,
                    old(ctx).vault_state_addr@,
                    old(ctx).vault_state.auth_bump,
                ))
            },
            Err(e) => {
                &&& *final(ctx) == *old(ctx)
                &&& e == (if !withdraw_spl_derivation_ok(*old(ctx)) {
                    Error::DerivationMismatch
                } else {
                    Error::InsufficientAuthorization
                })
            },
        }),
{
    if !check_derived(
        Namespace::Auth,
        &ctx.vault_state_addr,
        &ctx.program,
        &ctx.vault_auth,
        ctx.vault_state.auth_bump,
    ) {
        return Err(Error::DerivationMismatch);
    }
    if !ctx.owner.equals(&ctx.vault_state.owner) {
        return Err(Error::InsufficientAuthorization);
    }
    let authority = DerivedAuthority::make(
        Namespace::Auth,
        &ctx.vault_state_addr,
        ctx.vault_state.auth_bump,
    );
    let ix = TransferInstruction {
        from: ctx.vault_ata,
        to: ctx.owner_ata,
        amount,
        asset: AssetKind::Token(ctx.token_mint),
        signing: Signing::Authority(authority),
    };
    ctx.vault_state.score = advance_score(ctx.vault_state.score, 4);
    Ok(ix)
}

} // verus!

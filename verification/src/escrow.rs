use vstd::prelude::*;

use crate::derivation::{
    check_derived, derive_address, derive_from_identity, pda_of, seed_views, tag_bytes, Namespace,
};
use crate::error::Error;
use crate::identity::Identity;
use crate::transfer::{AssetKind, DerivedAuthority, Signing, TransferInstruction};

verus! {

/// Where an escrow stands in its life: it opens once, and then reaches
/// exactly one of the two terminal states, exactly once.
#[derive(Clone, Copy, Debug, PartialEq, Eq, Structural)]
pub enum EscrowStatus {
    Open,
    Fulfilled,
    Cancelled,
}

/// The persisted record of one offer: the maker, the two asset types, the
/// offered amount, the maker-chosen seed that makes the escrow address
/// unique per offer, the three bumps of its derived addresses, and its
/// resolution status.
#[derive(Clone, Copy, Debug, PartialEq, Eq)]
pub struct Escrow {
    pub maker: Identity,
    pub maker_token: Identity,
    pub taker_token: Identity,
    pub offer_amount: u64,
    pub seed: u64,
    pub auth_bump: u8,
    pub vault_bump: u8,
    pub escrow_bump: u8,
    pub status: EscrowStatus,
}

impl Escrow {
    /// The record's persisted size, declared up front at allocation time:
    /// three identities, two eight-byte integers, three bumps, and one
    /// status byte.
    pub const LEN: usize = 32 * 3 + 8 * 2 + 1 * 3 + 1;
}

/// The maker-chosen seed as derivation-seed bytes, least significant
/// byte first.
pub open spec fn seed_bytes(seed: u64) -> Seq<u8> {
    seq![
        (seed & 0xff) as u8,
        ((seed >> 8) & 0xff) as u8,
        ((seed >> 16) & 0xff) as u8,
        ((seed >> 24) & 0xff) as u8,
        ((seed >> 32) & 0xff) as u8,
        ((seed >> 40) & 0xff) as u8,
        ((seed >> 48) & 0xff) as u8,
        ((seed >> 56) & 0xff) as u8,
    ]
}

/// Build the seed's bytes for use as a derivation seed.
pub fn seed_vec(seed: u64) -> (r: Vec<u8>)
    ensures
        r@ == seed_bytes(seed),
{
    let mut v: Vec<u8> = Vec::new();
    v.push((seed & 0xff) as u8);
    v.push(((seed >> 8) & 0xff) as u8);
    v.push(((seed >> 16) & 0xff) as u8);
    v.push(((seed >> 24) & 0xff) as u8);
    v.push(((seed >> 32) & 0xff) as u8);
    v.push(((seed >> 40) & 0xff) as u8);
    v.push(((seed >> 48) & 0xff) as u8);
    v.push(((seed >> 56) & 0xff) as u8);
    proof {
        assert(v@ =~= seed_bytes(seed));
    }
    v
}

/// One escrow together with its derived addresses, the balance its
/// holding vault carries of the maker's asset, and the address space it
/// lives in.
#[derive(Clone, Copy, Debug)]
pub struct EscrowAccount {
    pub escrow: Escrow,
    pub escrow_addr: Identity,
    pub authority_addr: Identity,
    pub vault_addr: Identity,
    pub vault_balance: u64,
    pub program: Identity,
}

/// The escrow invariant: the offer is positive, and while the escrow is
/// open its holding vault covers the offered amount.
pub open spec fn wf(acct: EscrowAccount) -> bool {
    &&& acct.escrow.offer_amount >= 1
    &&& (acct.escrow.status is Open ==> acct.vault_balance >= acct.escrow.offer_amount)
}

/// The supplied addresses and stored bumps match their re-derivation from
/// the record's own maker and seed: the escrow record's address under
/// "escrow", the authority under "auth" from it, and the holding vault
/// under "vault" from the authority.
pub open spec fn escrow_derivation_ok(acct: EscrowAccount) -> bool {
    &&& pda_of(
        tag_bytes(Namespace::Escrow),
        seq![acct.escrow.maker@, seed_bytes(acct.escrow.seed)],
        acct.program@,
    ) == Some((acct.escrow_addr@, acct.escrow.escrow_bump))
    &&& pda_of(tag_bytes(Namespace::Auth), seq![acct.escrow_addr@], acct.program@) == Some(
        (acct.authority_addr@, acct.escrow.auth_bump),
    )
    &&& pda_of(tag_bytes(Namespace::Vault), seq![acct.authority_addr@], acct.program@) == Some(
        (acct.vault_addr@, acct.escrow.vault_bump),
    )
}

fn check_escrow_derivations(acct: &EscrowAccount) -> (r: bool)
    ensures
        r == escrow_derivation_ok(*acct),
{
    let mut parents: Vec<Vec<u8>> = Vec::new();
    parents.push(acct.escrow.maker.to_seed());
    parents.push(seed_vec(acct.escrow.seed));
    proof {
        assert(seed_views(parents@) =~= seq![acct.escrow.maker@, seed_bytes(acct.escrow.seed)]);
    }
    let escrow_ok = match derive_address(Namespace::Escrow, &parents, &acct.program) {
        Some((addr, bump)) => addr.equals(&acct.escrow_addr) && bump == acct.escrow.escrow_bump,
        None => false,
    };
    if !escrow_ok {
        return false;
    }
    if !check_derived(
        Namespace::Auth,
        &acct.escrow_addr,
        &acct.program,
        &acct.authority_addr,
        acct.escrow.auth_bump,
    ) {
        return false;
    }
    check_derived(
        Namespace::Vault,
        &acct.authority_addr,
        &acct.program,
        &acct.vault_addr,
        acct.escrow.vault_bump,
    )
}

/// The chain discovered when an offer is made: the escrow record's
/// address from the maker and seed, then the authority, then the holding
/// vault.
pub open spec fn offer_derivation(maker: Seq<u8>, seed: u64, program: Seq<u8>) -> Option<
    ((Seq<u8>, u8), (Seq<u8>, u8), (Seq<u8>, u8)),
> {
    match pda_of(tag_bytes(Namespace::Escrow), seq![maker, seed_bytes(seed)], program) {
        Some((e, eb)) => match pda_of(tag_bytes(Namespace::Auth), seq![e], program) {
            Some((a, ab)) => match pda_of(tag_bytes(Namespace::Vault), seq![a], program) {
                Some((v, vb)) => Some(((e, eb), (a, ab), (v, vb))),
                None => None,
            },
            None => None,
        },
        None => None,
    }
}

/// The account bundle for making an offer: the proven maker, the two
/// asset types, and whether an escrow already sits at the derived
/// address for this maker and seed.
#[derive(Clone, Copy, Debug)]
pub struct MakeOffer {
    pub maker: Identity,
    pub maker_token: Identity,
    pub taker_token: Identity,
    pub escrow_allocated: bool,
    pub program: Identity,
}

/// Open an escrow: derive its addresses from the maker and seed, record
/// the bumps, and emit the maker-signed leg that locks `offer_amount` of
/// the maker's asset in the derived holding vault.
pub fn make_offer(ctx: &MakeOffer, offer_amount: u64, seed: u64) -> (r: Result<
    (EscrowAccount, TransferInstruction),
    Error,
>)
    requires
        1 <= offer_amount,
    ensures
        r is Ok <==> (!ctx.escrow_allocated && offer_derivation(ctx.maker@, seed, ctx.program@)
            is Some),
        (match r {
            Ok((acct, ix)) => {
                &&& wf(acct)
                &&& escrow_derivation_ok(acct)
                &&& acct.escrow.maker == ctx.maker
                &&& acct.escrow.maker_token == ctx.maker_token
                &&& acct.escrow.taker_token == ctx.taker_token
                &&& acct.escrow.offer_amount == offer_amount
                &&& acct.escrow.seed == seed
                &&& acct.escrow.status is Open
                &&& acct.program == ctx.program
                &&& acct.vault_balance == offer_amount
                &&& ix.from == ctx.maker
                &&& ix.to == acct.vault_addr
                &&& ix.amount == offer_amount
                &&& ix.asset == AssetKind::Token(ctx.maker_token)
                &&& ix.signing == Signing::Caller(ctx.maker)
            },
            Err(e) => if ctx.escrow_allocated {
                e == Error::AlreadyInitialized
            } else {
                e == Error::DerivationMismatch
            },
        }),
{
    if ctx.escrow_allocated {
        return Err(Error::AlreadyInitialized);
    }
    let mut parents: Vec<Vec<u8>> = Vec::new();
    parents.push(ctx.maker.to_seed());
    parents.push(seed_vec(seed));
    proof {
        assert(seed_views(parents@) =~= seq![ctx.maker@, seed_bytes(seed)]);
    }
    match derive_address(Namespace::Escrow, &parents, &ctx.program) {
        None => Err(Error::DerivationMismatch),
        Some((escrow_addr, escrow_bump)) => {
            match derive_from_identity(Namespace::Auth, &escrow_addr, &ctx.program) {
                None => Err(Error::DerivationMismatch),
                Some((auth_addr, auth_bump)) => {
                    match derive_from_identity(Namespace::Vault, &auth_addr, &ctx.program) {
                        None => Err(Error::DerivationMismatch),
                        Some((vault_addr, vault_bump)) => {
                            let escrow = Escrow {
                                maker: ctx.maker,
                                maker_token: ctx.maker_token,
                                taker_token: ctx.taker_token,
                                offer_amount,
                                seed,
                                auth_bump,
                                vault_bump,
                                escrow_bump,
                                status: EscrowStatus::Open,
                            };
                            let acct = EscrowAccount {
                                escrow,
                                escrow_addr,
                                authority_addr: auth_addr,
                                vault_addr,
                                vault_balance: offer_amount,
                                program: ctx.program,
                            };
                            let ix = TransferInstruction {
                                from: ctx.maker,
                                to: vault_addr,
                                amount: offer_amount,
                                asset: AssetKind::Token(ctx.maker_token),
                                signing: Signing::Caller(ctx.maker),
                            };
                            Ok((acct, ix))
                        },
                    }
                },
            }
        },
    }
}

/// One resolution attempt on an escrow.
pub enum EscrowOp {
    Fulfil,
    Cancel,
}

/// The status after one attempt, and whether the attempt succeeded: only
/// an open escrow moves, and it moves to the attempt's terminal state.
pub open spec fn step_status(s: EscrowStatus, op: EscrowOp) -> (EscrowStatus, bool) {
    match s {
        EscrowStatus::Open => match op {
            EscrowOp::Fulfil => (EscrowStatus::Fulfilled, true),
            EscrowOp::Cancel => (EscrowStatus::Cancelled, true),
        },
        _ => (s, false),
    }
}

/// The status after a whole history of attempts.
pub open spec fn run_status(s: EscrowStatus, ops: Seq<EscrowOp>) -> EscrowStatus
    decreases ops.len(),
{
    if ops.len() == 0 {
        s
    } else {
        run_status(step_status(s, ops[0]).0, ops.drop_first())
    }
}

/// How many attempts of a history succeed.
pub open spec fn resolutions(s: EscrowStatus, ops: Seq<EscrowOp>) -> nat
    decreases ops.len(),
{
    if ops.len() == 0 {
        0nat
    } else {
        (if step_status(s, ops[0]).1 {
            1nat
        } else {
            0nat
        }) + resolutions(step_status(s, ops[0]).0, ops.drop_first())
    }
}

/// Exclusivity: over any history of fulfilment and cancellation attempts,
/// an escrow resolves at most once; a resolved escrow never changes
/// again; and it stays open exactly when nothing has resolved it.
pub proof fn lemma_escrow_exclusive(s: EscrowStatus, ops: Seq<EscrowOp>)
    ensures
        resolutions(s, ops) <= 1,
        !(s is Open) ==> (resolutions(s, ops) == 0 && run_status(s, ops) == s),
        (run_status(s, ops) is Open) <==> (s is Open && resolutions(s, ops) == 0),
    decreases ops.len(),
{
    if ops.len() != 0 {
        lemma_escrow_exclusive(step_status(s, ops[0]).0, ops.drop_first());
    }
}

/// Fulfil an open escrow: the taker pays the offered amount of the
/// taker's asset to the maker, taker-signed, and the engine releases the
/// held maker's asset from the vault to the taker, signed by the derived
/// "auth" authority. Both legs are emitted together or not at all: on any
/// error nothing changes, so there is no state where one party has paid
/// and the other has not.
pub fn fulfil(acct: &mut EscrowAccount, taker: &Identity) -> (r: Result<
    (TransferInstruction, TransferInstruction),
    Error,
>)
    requires
        wf(*old(acct)),
    ensures
        wf(*final(acct)),
        r is Ok <==> (escrow_derivation_ok(*old(acct)) && old(acct).escrow.status is Open),
        escrow_derivation_ok(*old(acct)) ==> final(acct).escrow.status == step_status(
            old(acct).escrow.status,
            EscrowOp::Fulfil,
        ).0,
        escrow_derivation_ok(*old(acct)) ==> (r is Ok) == step_status(
            old(acct).escrow.status,
            EscrowOp::Fulfil,
        ).1,
        *final(acct) == (EscrowAccount {
            escrow: (Escrow { status: final(acct).escrow.status, ..old(acct).escrow }),
            vault_balance: final(acct).vault_balance,
            ..*old(acct)
        }),
        (match r {
            Ok((payment, release)) => {
                &&& final(acct).escrow.status is Fulfilled
                &&& final(acct).vault_balance == old(acct).vault_balance - old(
                    acct).escrow.offer_amount
                &&& payment.from == *taker
                &&& payment.to == old(acct).escrow.maker
                &&& payment.amount == old(acct).escrow.offer_amount
                &&& payment.asset == AssetKind::Token(old(acct).escrow.taker_token)
                &&& payment.signing == Signing::Caller(*taker)
                &&& release.from == old(acct).vault_addr
                &&& release.to == *taker
                &&& release.amount == old(acct).escrow.offer_amount
                &&& release.asset == AssetKind::Token(old(acct).escrow.maker_token)
                &&& (release.signing matches Signing::Authority(da) && da@ == (
                    Namespace::Auth,
                    old(acct).escrow_addr@,
                    old(acct).escrow.auth_bump,
                ))
            },
            Err(e) => {
                &&& *final(acct) == *old(acct)
                &&& e == (if !escrow_derivation_ok(*old(acct)) {
                    Error::EscrowNotFound
                } else {
                    Error::AlreadyResolved
                })
            },
        }),
{
    if !check_escrow_derivations(acct) {
        return Err(Error::EscrowNotFound);
    }
    match acct.escrow.status {
        EscrowStatus::Open => {},
        _ => {
            return Err(Error::AlreadyResolved);
        },
    }
    let payment = TransferInstruction {
        from: *taker,
        to: acct.escrow.maker,
        amount: acct.escrow.offer_amount,
        asset: AssetKind::Token(acct.escrow.taker_token),
        signing: Signing::Caller(*taker),
    };
    let authority = DerivedAuthority::make(
        Namespace::Auth,
        &acct.escrow_addr,
        acct.escrow.auth_bump,
    );
    let release = TransferInstruction {
        from: acct.vault_addr,
        to: *taker,
        amount: acct.escrow.offer_amount,
        asset: AssetKind::Token(acct.escrow.maker_token),
        signing: Signing::Authority(authority),
    };
    acct.vault_balance = acct.vault_balance - acct.escrow.offer_amount;
    acct.escrow.status = EscrowStatus::Fulfilled;
    Ok((payment, release))
}

/// Cancel an open escrow: only the maker may cancel, and the held asset
/// goes back to the maker, signed by the derived "auth" authority. A
/// resolved escrow always refuses, whoever asks; on any error nothing
/// changes.
pub fn cancel(acct: &mut EscrowAccount, caller: &Identity) -> (r: Result<
    TransferInstruction,
    Error,
>)
    requires
        wf(*old(acct)),
    ensures
        wf(*final(acct)),
        r is Ok <==> (escrow_derivation_ok(*old(acct)) && old(acct).escrow.status is Open
            && caller@ == old(acct).escrow.maker@),
        (escrow_derivation_ok(*old(acct)) && caller@ == old(acct).escrow.maker@)
            ==> final(acct).escrow.status == step_status(
            old(acct).escrow.status,
            EscrowOp::Cancel,
        ).0,
        (escrow_derivation_ok(*old(acct)) && caller@ == old(acct).escrow.maker@) ==> (r is Ok)
            == step_status(old(acct).escrow.status, EscrowOp::Cancel).1,
        *final(acct) == (EscrowAccount {
            escrow: (Escrow { status: final(acct).escrow.status, ..old(acct).escrow }),
            vault_balance: final(acct).vault_balance,
            ..*old(acct)
        }),
        (match r {
            Ok(ix) => {
                &&& final(acct).escrow.status is Cancelled
                &&& final(acct).vault_balance == old(acct).vault_balance - old(
                    acct).escrow.offer_amount
                &&& ix.from == old(acct).vault_addr
                &&& ix.to == old(acct).escrow.maker
                &&& ix.amount == old(acct).escrow.offer_amount
                &&& ix.asset == AssetKind::Token(old(acct).escrow.maker_token)
                &&& (ix.signing matches Signing::Authority(da) && da@ == (
                    Namespace::Auth,
                    old(acct).escrow_addr@,
                    old(acct).escrow.auth_bump,
                ))
            },
            Err(e) => {
                &&& *final(acct) == *old(acct)
                &&& e == (if !escrow_derivation_ok(*old(acct)) {
                    Error::EscrowNotFound
                } else if !(old(acct).escrow.status is Open) {
                    Error::AlreadyResolved
                } else {
                    Error::NotMaker
                })
            },
        }),
{
    if !check_escrow_derivations(acct) {
        return Err(Error::EscrowNotFound);
    }
    match acct.escrow.status {
        EscrowStatus::Open => {},
        _ => {
            return Err(Error::AlreadyResolved);
        },
    }
    if !caller.equals(&acct.escrow.maker) {
        return Err(Error::NotMaker);
    }
    let authority = DerivedAuthority::make(
        Namespace::Auth,
        &acct.escrow_addr,
        acct.escrow.auth_bump,
    );
    let ix = TransferInstruction {
        from: acct.vault_addr,
        to: acct.escrow.maker,
        amount: acct.escrow.offer_amount,
        asset: AssetKind::Token(acct.escrow.maker_token),
        signing: Signing::Authority(authority),
    };
    acct.vault_balance = acct.vault_balance - acct.escrow.offer_amount;
    acct.escrow.status = EscrowStatus::Cancelled;
    Ok(ix)
}

} // verus!

use vstd::prelude::*;

use crate::identity::Identity;

use anchor_lang::solana_program::pubkey::Pubkey;

verus! {

/// The namespace tag that keeps the address families of one record apart:
/// the signing authority, the holding vault, the state record, the escrow
/// record, and the token holding vault each derive under their own tag.
#[derive(Clone, Copy, Debug, PartialEq, Eq, Structural)]
pub enum Namespace {
    Auth,
    Vault,
    State,
    Escrow,
    SplVault,
}

/// The byte string of a namespace tag: "auth", "vault", "state", "escrow"
/// or "spl_vault".
pub open spec fn tag_bytes(ns: Namespace) -> Seq<u8> {
    match ns {
        Namespace::Auth => seq![97u8, 117u8, 116u8, 104u8],
        Namespace::Vault => seq![118u8, 97u8, 117u8, 108u8, 116u8],
        Namespace::State => seq![115u8, 116u8, 97u8, 116u8, 101u8],
        Namespace::Escrow => seq![101u8, 115u8, 99u8, 114u8, 111u8, 119u8],
        Namespace::SplVault => seq![
            115u8,
            112u8,
            108u8,
            95u8,
            118u8,
            97u8,
            117u8,
            108u8,
            116u8,
        ],
    }
}

/// Build the tag's bytes for use as the leading derivation seed.
pub fn tag_vec(ns: Namespace) -> (r: Vec<u8>)
    ensures
        r@ == tag_bytes(ns),
{
    let mut v: Vec<u8> = Vec::new();
    match ns {
        Namespace::Auth => {
            v.push(97u8);
            v.push(117u8);
            v.push(116u8);
            v.push(104u8);
        },
        Namespace::Vault => {
            v.push(118u8);
            v.push(97u8);
            v.push(117u8);
            v.push(108u8);
            v.push(116u8);
        },
        Namespace::State => {
            v.push(115u8);
            v.push(116u8);
            v.push(97u8);
            v.push(116u8);
            v.push(101u8);
        },
        Namespace::Escrow => {
            v.push(101u8);
            v.push(115u8);
            v.push(99u8);
            v.push(114u8);
            v.push(111u8);
            v.push(119u8);
        },
        Namespace::SplVault => {
            v.push(115u8);
            v.push(112u8);
            v.push(108u8);
            v.push(95u8);
            v.push(118u8);
            v.push(97u8);
            v.push(117u8);
            v.push(108u8);
            v.push(116u8);
        },
    }
    proof {
        assert(v@ =~= tag_bytes(ns));
    }
    v
}

/// Distinct namespaces carry distinct tag byte strings, so two address
/// families over the same parents never share their derivation inputs.
pub proof fn lemma_namespace_tags_distinct(a: Namespace, b: Namespace)
    ensures
        a != b ==> tag_bytes(a) != tag_bytes(b),
{
    if a != b {
        assert(tag_bytes(Namespace::Auth).len() == 4);
        assert(tag_bytes(Namespace::Vault).len() == 5);
        assert(tag_bytes(Namespace::State).len() == 5);
        assert(tag_bytes(Namespace::Escrow).len() == 6);
        assert(tag_bytes(Namespace::SplVault).len() == 9);
        assert(tag_bytes(Namespace::Vault)[0] == 118u8);
        assert(tag_bytes(Namespace::State)[0] == 115u8);
    }
}

/// What `Pubkey::try_find_program_address` returns for the given seeds and
/// program identity: the derived address and its discovered bump, or
/// nothing when no bump in `[255, 0]` yields a valid address for these
/// inputs.
pub uninterp spec fn pda_of(tag: Seq<u8>, parents: Seq<Seq<u8>>, program: Seq<u8>) -> Option<
    (Seq<u8>, u8),
>;

/// The byte views of a list of parent seeds.
pub open spec fn seed_views(parents: Seq<Vec<u8>>) -> Seq<Seq<u8>> {
    parents.map_values(|p: Vec<u8>| p@)
}

/// Relies on `Pubkey::try_find_program_address`: the returned pair is a
/// pure function of the seed bytes and the program identity alone, found
/// by searching bumps downward from 255; the call never panics, and it
/// returns `None` when no bump yields a valid address for these inputs.
#[verifier::external_body]
fn try_find_pda(tag: &Vec<u8>, parents: &Vec<Vec<u8>>, program: &Identity) -> (r: Option<
    (Identity, u8),
>)
    ensures
        (match r {
            Some((addr, bump)) => pda_of(tag@, seed_views(parents@), program@) == Some(
                (addr@, bump),
            ),
            None => pda_of(tag@, seed_views(parents@), program@) is None,
        }),
{
    let mut seeds: Vec<&[u8]> = Vec::with_capacity(parents.len() + 1);
    seeds.push(tag.as_slice());
    for p in parents.iter() {
        seeds.push(p.as_slice());
    }
    let pid = Pubkey::new_from_array(program.bytes);
    Pubkey::try_find_program_address(&seeds, &pid).map(
        |ab: (Pubkey, u8)| (Identity { bytes: ab.0.to_bytes() }, ab.1),
    )
}

/// Derive the address and bump for namespace `ns` over the given parent
/// seeds within `program`'s address space. The result is a function of the
/// inputs alone, so deriving twice from identical inputs always yields the
/// identical pair.
pub fn derive_address(ns: Namespace, parents: &Vec<Vec<u8>>, program: &Identity) -> (r: Option<
    (Identity, u8),
>)
    ensures
        (match r {
            Some((addr, bump)) => pda_of(tag_bytes(ns), seed_views(parents@), program@) == Some(
                (addr@, bump),
            ),
            None => pda_of(tag_bytes(ns), seed_views(parents@), program@) is None,
        }),
{
    let tag = tag_vec(ns);
    try_find_pda(&tag, parents, program)
}

/// Derive the `ns` address whose single parent seed is `parent`'s bytes.
pub fn derive_from_identity(ns: Namespace, parent: &Identity, program: &Identity) -> (r: Option<
    (Identity, u8),
>)
    ensures
        (match r {
            Some((addr, bump)) => pda_of(tag_bytes(ns), seq![parent@], program@) == Some(
                (addr@, bump),
            ),
            None => pda_of(tag_bytes(ns), seq![parent@], program@) is None,
        }),
{
    let mut parents: Vec<Vec<u8>> = Vec::new();
    parents.push(parent.to_seed());
    proof {
        assert(seed_views(parents@) =~= seq![parent@]);
    }
    derive_address(ns, &parents, program)
}

/// Re-derive the `ns` address for `parent` and compare it with a supplied
/// address and stored bump: true exactly when the pair matches the
/// derivation, so a forged address or a tampered bump is always caught.
pub fn check_derived(
    ns: Namespace,
    parent: &Identity,
    program: &Identity,
    addr: &Identity,
    bump: u8,
) -> (r: bool)
    ensures
        r == (pda_of(tag_bytes(ns), seq![parent@], program@) == Some((addr@, bump))),
{
    match derive_from_identity(ns, parent, program) {
        Some((a, b)) => a.equals(addr) && b == bump,
        None => false,
    }
}

/// Derivation is deterministic: the derived pair is a function of the tag,
/// the parents and the program alone, never of when or where it is
/// computed, so deriving twice yields the identical result.
pub proof fn lemma_derivation_deterministic(tag: Seq<u8>, parents: Seq<Seq<u8>>, program: Seq<u8>)
    ensures
        pda_of(tag, parents, program) == pda_of(tag, parents, program),
{
}

} // verus!

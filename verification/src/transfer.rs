use vstd::prelude::*;

use crate::derivation::Namespace;
use crate::identity::Identity;

verus! {

/// The asset moved by one transfer leg: the native currency, or a token of
/// the given mint identity.
#[derive(Clone, Copy, Debug, PartialEq, Eq)]
pub enum AssetKind {
    Native,
    Token(Identity),
}

/// A capability standing for the signing power over one derived address.
/// Only the engine can construct it, and only by reproducing the exact
/// namespace, parent and bump recorded at creation; it is never built from
/// caller-supplied data that was not re-derived first.
#[derive(Clone, Copy, Debug)]
pub struct DerivedAuthority {
    ns: Namespace,
    parent: Identity,
    bump: u8,
}

impl View for DerivedAuthority {
    type V = (Namespace, Seq<u8>, u8);

    closed spec fn view(&self) -> (Namespace, Seq<u8>, u8) {
        (self.ns, self.parent@, self.bump)
    }
}

impl DerivedAuthority {
    /// Built by the engine after it has re-derived and checked the address
    /// this capability signs for.
    pub(crate) fn make(ns: Namespace, parent: &Identity, bump: u8) -> (r: DerivedAuthority)
        ensures
            r@ == (ns, parent@, bump),
    {
        DerivedAuthority { ns, parent: *parent, bump }
    }

    /// The namespace tag this capability was derived under.
    pub fn namespace(&self) -> (r: Namespace)
        ensures
            r == self@.0,
    {
        self.ns
    }

    /// The bytes of the parent identifier this capability was derived over.
    pub fn parent_bytes(&self) -> (r: Vec<u8>)
        ensures
            r@ == self@.1,
    {
        self.parent.to_seed()
    }

    /// The disambiguation bump this capability was derived with.
    pub fn bump(&self) -> (r: u8)
        ensures
            r == self@.2,
    {
        self.bump
    }
}

/// Who authorizes a transfer leg.
#[derive(Clone, Copy, Debug)]
pub enum Signing {
    /// The live transaction signer authorizes the leg itself.
    Caller(Identity),
    /// The engine authorizes the leg with a derived authority it
    /// reconstructed from the record's derivation inputs.
    Authority(DerivedAuthority),
}

/// One authorized transfer leg, emitted by the engine for the host's
/// atomic transfer primitive to execute. The engine emits a leg only after
/// every precondition of the operation has passed.
#[derive(Clone, Copy, Debug)]
pub struct TransferInstruction {
    pub from: Identity,
    pub to: Identity,
    pub amount: u64,
    pub asset: AssetKind,
    pub signing: Signing,
}

} // verus!

use vstd::prelude::*;

verus! {

/// Why a custody or escrow operation was refused. Every check runs before
/// any transfer leg is emitted, so no funds move on any error path.
#[derive(Clone, Copy, Debug, PartialEq, Eq, Structural)]
pub enum Error {
    /// The proven caller identity does not match the record's owner.
    InsufficientAuthorization,
    /// A withdrawal asked for more than the vault holds.
    InsufficientFunds,
    /// Initialization was attempted where a record already exists.
    AlreadyInitialized,
    /// A resolved escrow was asked to fulfil or cancel again.
    AlreadyResolved,
    /// A supplied address does not match the re-derived address, or no
    /// valid bump exists for the derivation inputs.
    DerivationMismatch,
    /// The caller of a cancellation is not the escrow's maker.
    NotMaker,
    /// The supplied escrow record does not sit at the address derived from
    /// its own maker and seed.
    EscrowNotFound,
}

} // verus!

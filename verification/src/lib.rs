//! A deterministic custody vault: value-holding accounts whose spending
//! authority is derived mathematically from a namespace tag and a chain of
//! parent identifiers, and whose every balance-changing operation must be
//! authorized by the proven caller identity before a transfer leg is emitted.

pub mod custody;
pub mod derivation;
pub mod error;
pub mod escrow;
pub mod identity;
pub mod transfer;
pub mod vault;

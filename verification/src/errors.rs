//! The error taxonomy of the vault's operations.

use vstd::prelude::*;

verus! {

/// Why an operation was rejected. Every error aborts the operation and
/// leaves every account unchanged.
#[derive(Clone, Copy, Debug, PartialEq, Eq, Structural)]
pub enum ErrorCode {
    /// The vault holds less than the amount a withdrawal asked for.
    InsufficientFunds,
    /// A supplied account's address does not match the deterministic
    /// derivation from the recorded nonce or the owner identity.
    DerivationMismatch,
    /// Initialization was attempted for an owner whose state record
    /// already exists; the recorded nonces are never overwritten.
    AlreadyInitialized,
    /// The underlying funds-transfer primitive itself failed, for
    /// example because the sending side holds too little.
    UnderlyingTransferFailure,
    /// The bounded bump search found no valid derivation.
    DerivationExhausted,
}

} // verus!

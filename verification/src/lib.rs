//! A per-owner custodial value vault.
//!
//! Each owner identity gets a state record and a vault account whose
//! addresses are derived deterministically from the owner's identity.
//! The recorded derivation nonces ("bumps") are the only authority
//! needed to move funds out of the vault: authority is structural,
//! proven by reproducing the derivation, not by holding a private key.

pub mod addr;
pub mod errors;
pub mod laws;
pub mod ledger;
pub mod ops;
pub mod pda;

//! A time-locked custody vault.
//!
//! The vault holds a balance of one fungible asset on behalf of a single
//! owner and releases it only after a configured unlock time has elapsed.
//! The crate verifies the vault's state machine: one-time initialization,
//! deposits by any account, and withdrawals that are owner-only, time-gated,
//! and balance-checked, with the locked balance always equal to the net of
//! all successful deposits and withdrawals and never negative.
//!
//! The host platform's facilities — persistent storage, cryptographic caller
//! authentication, the asset transfer itself, and the current ledger time —
//! are collaborators outside this crate: callers authenticate identities,
//! perform transfers, and supply the current time around the vault's
//! decisions.

pub mod contract;
pub mod machine;
